//! The part of the widget tree that window events touch.
//!
//! A [`Context`] gives typed access to the window's own properties, to the focus
//! flag of every widget, and to the tree-wide record of which widget holds the
//! focus.

use vstd::prelude::*;
use crate::geometry::{Constraint, Rectangle};

verus! {

/// The identity of a widget in the tree.
#[derive(Copy, Clone, Debug, PartialEq, Eq, Structural)]
pub struct Entity(pub usize);

/// What the whole tree shares.
#[derive(Copy, Clone, Debug, PartialEq, Eq, Structural)]
pub struct Global {
    /// The widget that holds the focus, if any does.
    pub focused_widget: Option<Entity>,
}

/// What a [`Context`] holds, as a mathematical value.
pub struct Tree {
    /// The window's bounds.
    pub bounds: Rectangle,
    /// The window's layout constraint.
    pub constraint: Constraint,
    /// Whether the window is active.
    pub active: bool,
    /// The widget that holds the focus, if any does.
    pub focused_widget: Option<Entity>,
    /// The focus flag of each widget, at the index that its entity names.
    pub focus: Seq<bool>,
}

impl Tree {
    /// Whether `entity` names a widget of this tree.
    pub open spec fn resolves(self, entity: Entity) -> bool {
        entity.0 < self.focus.len()
    }

    /// The focused-widget reference, where there is one, names a widget of the tree.
    pub open spec fn wf(self) -> bool {
        self.focused_widget matches Some(entity) ==> self.resolves(entity)
    }

    /// An inactive window has no focused widget.
    pub open spec fn settled(self) -> bool {
        !self.active ==> self.focused_widget is None
    }

    /// The tree of a window that was just made: no size, inactive, no widgets.
    pub open spec fn empty() -> Tree {
        Tree {
            bounds: Rectangle { x: 0, y: 0, width: 0, height: 0 },
            constraint: Constraint::unbounded(),
            active: false,
            focused_widget: None,
            focus: Seq::empty(),
        }
    }
}

/// Typed access to the window's properties and to the focus state of the tree.
pub struct Context {
    bounds: Rectangle,
    constraint: Constraint,
    active: bool,
    global: Global,
    focus: Vec<bool>,
}

impl View for Context {
    type V = Tree;

    closed spec fn view(&self) -> Tree {
        Tree {
            bounds: self.bounds,
            constraint: self.constraint,
            active: self.active,
            focused_widget: self.global.focused_widget,
            focus: self.focus@,
        }
    }
}

impl Context {
    /// The context of a window that was just made.
    pub fn new() -> (ctx: Context)
        ensures
            ctx@ == Tree::empty(),
    {
        Context {
            bounds: Rectangle { x: 0, y: 0, width: 0, height: 0 },
            constraint: Constraint::new(),
            active: false,
            global: Global { focused_widget: None },
            focus: Vec::new(),
        }
    }

    /// Adds a widget without focus and returns its identity.
    pub fn create_widget(&mut self) -> (entity: Entity)
        ensures
            entity.0 == old(self)@.focus.len(),
            final(self)@ == (Tree { focus: old(self)@.focus.push(false), ..old(self)@ }),
    {
        let entity = Entity(self.focus.len());
        self.focus.push(false);
        entity
    }

    /// Whether `entity` names a widget of this tree.
    pub fn contains(&self, entity: Entity) -> (found: bool)
        ensures
            found == self@.resolves(entity),
    {
        entity.0 < self.focus.len()
    }

    /// The window's bounds.
    pub fn bounds(&self) -> (bounds: Rectangle)
        ensures
            bounds == self@.bounds,
    {
        self.bounds
    }

    /// Replaces the window's bounds.
    pub fn set_bounds(&mut self, bounds: Rectangle)
        ensures
            final(self)@ == (Tree { bounds, ..old(self)@ }),
    {
        self.bounds = bounds;
    }

    /// The window's layout constraint.
    pub fn constraint(&self) -> (constraint: Constraint)
        ensures
            constraint == self@.constraint,
    {
        self.constraint
    }

    /// Replaces the window's layout constraint.
    pub fn set_constraint(&mut self, constraint: Constraint)
        ensures
            final(self)@ == (Tree { constraint, ..old(self)@ }),
    {
        self.constraint = constraint;
    }

    /// Whether the window is active.
    pub fn active(&self) -> (active: bool)
        ensures
            active == self@.active,
    {
        self.active
    }

    /// Writes the window's activation flag.
    pub fn set_active(&mut self, active: bool)
        ensures
            final(self)@ == (Tree { active, ..old(self)@ }),
    {
        self.active = active;
    }

    /// The widget that holds the focus, if any does.
    pub fn focused_widget(&self) -> (focused: Option<Entity>)
        ensures
            focused == self@.focused_widget,
    {
        self.global.focused_widget
    }

    /// Records which widget holds the focus. The widget must be one of the tree.
    pub fn set_focused_widget(&mut self, focused: Option<Entity>)
        requires
            focused matches Some(entity) ==> old(self)@.resolves(entity),
        ensures
            final(self)@ == (Tree { focused_widget: focused, ..old(self)@ }),
    {
        self.global.focused_widget = focused;
    }

    /// The focus flag of a widget of the tree.
    pub fn focus(&self, entity: Entity) -> (focus: bool)
        requires
            self@.resolves(entity),
        ensures
            focus == self@.focus[entity.0 as int],
    {
        self.focus[entity.0]
    }

    /// Writes the focus flag of a widget of the tree.
    pub fn set_focus(&mut self, entity: Entity, focus: bool)
        requires
            old(self)@.resolves(entity),
        ensures
            final(self)@ == (Tree {
                focus: old(self)@.focus.update(entity.0 as int, focus),
                ..old(self)@
            }),
    {
        self.focus.set(entity.0, focus);
    }
}

} // verus!
