//! The window's state machine: a queue of pending events, of which one is
//! applied to the tree on every tick, in the order of arrival.

use std::collections::VecDeque;
use vstd::prelude::*;
use crate::event::WindowEvent;
use crate::geometry::{Constraint, Rectangle};
use crate::tree::{Context, Entity, Tree};

verus! {

/// What one tick of the state machine did.
#[derive(Copy, Clone, Debug, PartialEq, Eq, Structural)]
pub enum Outcome {
    /// No event was pending.
    Idle,
    /// A new size was written to the window's bounds and constraint.
    Resized,
    /// The activation flag was written. `unfocused` names the widget that lost
    /// the focus on the way; it has to refresh its visual state.
    ActiveChanged { unfocused: Option<Entity> },
    /// The event is not one that the window state owns. It changed nothing and
    /// is handed back.
    Unhandled(WindowEvent),
}

/// The tree after a resize: bounds and constraint both carry the new size.
pub open spec fn resized(tree: Tree, width: u32, height: u32) -> Tree {
    Tree {
        bounds: Rectangle { width, height, ..tree.bounds },
        constraint: Constraint { width, height, ..tree.constraint },
        ..tree
    }
}

/// The widget that loses the focus when the activation flag is written.
pub open spec fn unfocused_by(tree: Tree, active: bool) -> Option<Entity> {
    if active {
        None
    } else {
        tree.focused_widget
    }
}

/// The tree after the activation flag was written. A window that becomes
/// inactive takes the focus from the widget that held it.
pub open spec fn activation_changed(tree: Tree, active: bool) -> Tree {
    match unfocused_by(tree, active) {
        Some(entity) => Tree {
            active,
            focused_widget: None,
            focus: tree.focus.update(entity.0 as int, false),
            ..tree
        },
        None => Tree { active, ..tree },
    }
}

/// The tree after one event was applied to it.
pub open spec fn applied(tree: Tree, event: WindowEvent) -> Tree {
    match event {
        WindowEvent::Resize { width, height } => resized(tree, width, height),
        WindowEvent::ActiveChanged(active) => activation_changed(tree, active),
        WindowEvent::Other => tree,
    }
}

/// What applying one event to the tree reports.
pub open spec fn outcome_of(tree: Tree, event: WindowEvent) -> Outcome {
    match event {
        WindowEvent::Resize { .. } => Outcome::Resized,
        WindowEvent::ActiveChanged(active) => Outcome::ActiveChanged {
            unfocused: unfocused_by(tree, active),
        },
        WindowEvent::Other => Outcome::Unhandled(event),
    }
}

/// The tree after a sequence of events was applied to it, first to last.
pub open spec fn applied_all(tree: Tree, events: Seq<WindowEvent>) -> Tree
    decreases events.len(),
{
    if events.len() == 0 {
        tree
    } else {
        applied_all(applied(tree, events.first()), events.drop_first())
    }
}

/// Queue and tree after one tick: the oldest pending event has left the queue
/// and was applied. With nothing pending, nothing changes.
pub open spec fn tick(queue: Seq<WindowEvent>, tree: Tree) -> (Seq<WindowEvent>, Tree) {
    if queue.len() == 0 {
        (queue, tree)
    } else {
        (queue.drop_first(), applied(tree, queue.first()))
    }
}

/// What one tick reports.
pub open spec fn tick_outcome(queue: Seq<WindowEvent>, tree: Tree) -> Outcome {
    if queue.len() == 0 {
        Outcome::Idle
    } else {
        outcome_of(tree, queue.first())
    }
}

/// Queue and tree after `n` ticks.
pub open spec fn ticks(queue: Seq<WindowEvent>, tree: Tree, n: nat) -> (Seq<WindowEvent>, Tree)
    decreases n,
{
    if n == 0 {
        (queue, tree)
    } else {
        let (rest, next) = tick(queue, tree);
        ticks(rest, next, (n - 1) as nat)
    }
}

/// The `WindowState` handles the window events.
pub struct WindowState {
    events: VecDeque<WindowEvent>,
}

impl View for WindowState {
    type V = Seq<WindowEvent>;

    /// The pending events, oldest first.
    closed spec fn view(&self) -> Seq<WindowEvent> {
        self.events@
    }
}

impl WindowState {
    /// A state with nothing pending.
    pub fn new() -> (state: WindowState)
        ensures
            state@ == Seq::<WindowEvent>::empty(),
    {
        WindowState { events: VecDeque::new() }
    }

    /// How many events are pending.
    pub fn pending(&self) -> (count: usize)
        ensures
            count == self@.len(),
    {
        self.events.len()
    }

    /// Queues an event behind those that are pending. Nothing else changes
    /// until the next tick.
    pub fn push_event(&mut self, event: WindowEvent)
        ensures
            final(self)@ == old(self)@.push(event),
    {
        self.events.push_back(event);
    }

    /// Writes the new size to the window's bounds and to its constraint.
    pub fn resize(&self, width: u32, height: u32, ctx: &mut Context)
        ensures
            final(ctx)@ == resized(old(ctx)@, width, height),
            old(ctx)@.wf() ==> final(ctx)@.wf(),
    {
        let mut bounds = ctx.bounds();
        bounds.set_size(width, height);
        ctx.set_bounds(bounds);
        let mut constraint = ctx.constraint();
        constraint.set_size(width, height);
        ctx.set_constraint(constraint);
    }

    /// Writes the window's activation flag. A window that becomes inactive takes
    /// the focus from the widget that held it: the tree's focused-widget
    /// reference and that widget's focus flag are cleared, and the widget is
    /// returned, because it has to refresh its visual state.
    pub fn active_changed(&self, active: bool, ctx: &mut Context) -> (unfocused: Option<Entity>)
        requires
            old(ctx)@.wf(),
        ensures
            final(ctx)@ == activation_changed(old(ctx)@, active),
            unfocused == unfocused_by(old(ctx)@, active),
            final(ctx)@.wf(),
    {
        ctx.set_active(active);
        if !active {
            // remove focus if the window is not active
            if let Some(focused_widget) = ctx.focused_widget() {
                ctx.set_focused_widget(None);
                ctx.set_focus(focused_widget, false);
                return Some(focused_widget);
            }
        }
        None
    }

    /// One tick: takes the oldest pending event from the queue and applies it
    /// to the tree. With nothing pending, nothing changes.
    pub fn update(&mut self, ctx: &mut Context) -> (outcome: Outcome)
        requires
            old(ctx)@.wf(),
        ensures
            (final(self)@, final(ctx)@) == tick(old(self)@, old(ctx)@),
            outcome == tick_outcome(old(self)@, old(ctx)@),
            final(ctx)@.wf(),
    {
        if let Some(event) = self.events.pop_front() {
            match event {
                WindowEvent::Resize { width, height } => {
                    self.resize(width, height, ctx);
                    Outcome::Resized
                },
                WindowEvent::ActiveChanged(active) => {
                    let unfocused = self.active_changed(active, ctx);
                    Outcome::ActiveChanged { unfocused }
                },
                _ => Outcome::Unhandled(event),
            }
        } else {
            Outcome::Idle
        }
    }
}

impl Default for WindowState {
    fn default() -> (state: WindowState)
        ensures
            state@ == Seq::<WindowEvent>::empty(),
    {
        WindowState::new()
    }
}

/// Applying an event to a well-formed tree leaves it well-formed.
pub proof fn lemma_applied_keeps_wf(tree: Tree, event: WindowEvent)
    requires
        tree.wf(),
    ensures
        applied(tree, event).wf(),
{
}

/// An event that is queued behind others is applied after all of them.
pub proof fn lemma_applied_all_push(tree: Tree, events: Seq<WindowEvent>, event: WindowEvent)
    ensures
        applied_all(tree, events.push(event)) == applied(applied_all(tree, events), event),
    decreases events.len(),
{
    if events.len() == 0 {
        assert(events.push(event).drop_first() =~= events);
        assert(applied_all(applied(tree, event), events) == applied(tree, event));
    } else {
        assert(events.push(event).drop_first() =~= events.drop_first().push(event));
        lemma_applied_all_push(applied(tree, events.first()), events.drop_first(), event);
    }
}

/// Ticks drain the queue in the order of arrival: after `n` ticks on a queue
/// that holds at least `n` events, exactly its first `n` events have been
/// applied, oldest first, and exactly those have left the queue.
pub proof fn lemma_ticks_drain_in_order(queue: Seq<WindowEvent>, tree: Tree, n: nat)
    requires
        n <= queue.len(),
    ensures
        ticks(queue, tree, n).0 == queue.skip(n as int),
        ticks(queue, tree, n).0.len() == queue.len() - n,
        ticks(queue, tree, n).1 == applied_all(tree, queue.take(n as int)),
    decreases n,
{
    if n == 0 {
        assert(queue.skip(0) =~= queue);
        assert(queue.take(0).len() == 0);
    } else {
        let (rest, next) = tick(queue, tree);
        lemma_ticks_drain_in_order(rest, next, (n - 1) as nat);
        assert(rest.skip(n - 1) =~= queue.skip(n as int));
        assert(rest.take(n - 1) =~= queue.take(n as int).drop_first());
        assert(queue.take(n as int).first() == queue.first());
    }
}

/// A tick on an empty queue changes nothing, however often it is repeated.
pub proof fn lemma_ticks_idle(tree: Tree, n: nat)
    ensures
        ticks(Seq::empty(), tree, n) == (Seq::<WindowEvent>::empty(), tree),
    decreases n,
{
    if n > 0 {
        lemma_ticks_idle(tree, (n - 1) as nat);
    }
}

/// A resize leaves the size of the bounds and that of the constraint equal to
/// the size it carries, and the same resize applied again changes nothing.
pub proof fn lemma_resize_idempotent(tree: Tree, width: u32, height: u32)
    ensures
        ({
            let once = applied(tree, WindowEvent::Resize { width, height });
            let twice = applied(once, WindowEvent::Resize { width, height });
            &&& once.bounds.spec_size() == (width, height)
            &&& once.constraint.spec_size() == (width, height)
            &&& twice == once
        }),
{
}

/// Once a window was told that it is inactive, no widget is recorded as
/// focused, and the widget that was has lost its focus flag.
pub proof fn lemma_deactivation_clears_focus(tree: Tree)
    requires
        tree.wf(),
    ensures
        ({
            let after = applied(tree, WindowEvent::ActiveChanged(false));
            &&& !after.active
            &&& after.focused_widget is None
            &&& tree.focused_widget matches Some(entity) ==> !after.focus[entity.0 as int]
        }),
{
}

/// While the window is inactive, no widget is recorded as focused: an event
/// that is applied to a tree of which this holds leaves a tree of which it holds.
pub proof fn lemma_applied_keeps_settled(tree: Tree, event: WindowEvent)
    requires
        tree.settled(),
    ensures
        applied(tree, event).settled(),
{
}

/// Telling an active window that it is active changes nothing; in particular
/// the focused-widget reference stays as it was.
pub proof fn lemma_activation_keeps_focus(tree: Tree)
    requires
        tree.active,
    ensures
        applied(tree, WindowEvent::ActiveChanged(true)) == tree,
        applied(tree, WindowEvent::ActiveChanged(true)).focused_widget == tree.focused_widget,
{
}

} // verus!
