//! The window widget: the properties that an application configures, and the
//! adapter that brings the platform's events to the window state.

use vstd::prelude::*;
use crate::event::WindowEvent;
use crate::geometry::Constraint;
use crate::tree::Entity;
use crate::window::WindowState;

verus! {

/// The background of a window that was given no other.
pub const BRIGHT_GRAY_COLOR: &'static str = "#3b434a";

/// Which theme styles the window. The themes themselves belong to the styling
/// engine.
#[derive(Clone, Debug, PartialEq, Eq)]
pub enum Theme {
    /// The theme that the toolkit brings along.
    Default,
    /// A theme of the application, by its name.
    Named(String),
}

/// How a widget is drawn. The drawing itself belongs to the renderer.
#[derive(Copy, Clone, Debug, PartialEq, Eq, Structural)]
pub enum RenderStrategy {
    /// Draws nothing of its own: the surface is cleared.
    Clear,
}

/// How a widget arranges its children. The arranging itself belongs to the
/// layout pass.
#[derive(Copy, Clone, Debug, PartialEq, Eq, Structural)]
pub enum LayoutStrategy {
    /// The children are placed in the cells of a grid.
    Grid,
}

/// Brings the events that the platform reports for a window to the window
/// state of one entity.
#[derive(Copy, Clone, Debug, PartialEq, Eq, Structural)]
pub struct WindowEventHandler {
    /// The entity whose window state receives the events.
    pub target: Entity,
}

impl WindowEventHandler {
    /// Queues the event in the window state and reports it as handled, whatever
    /// the event is. `state` is the window state of `self.target`.
    pub fn handle(&self, state: &mut WindowState, event: WindowEvent) -> (handled: bool)
        ensures
            handled,
            final(state)@ == old(state)@.push(event),
    {
        state.push_event(event);
        true
    }
}

/// The `Window` widget provides access to the properties of an application window.
pub struct Window {
    /// The name under which the widget is known to the tree.
    pub name: String,
    /// The brush that paints the background.
    pub background: String,
    /// The title of the window.
    pub title: String,
    /// The selector by which themes address the widget.
    pub selector: String,
    /// Whether the user may resize the window.
    pub resizeable: bool,
    /// Whether the window is active.
    pub active: bool,
    /// The theme that styles the window.
    pub theme: Theme,
    /// The size that the window aims for, and its limits.
    pub constraint: Constraint,
    /// The handlers of window events, in the order in which they are asked.
    pub handlers: Vec<WindowEventHandler>,
}

impl Window {
    /// A window with no property set and no handler.
    pub fn create() -> (window: Window)
        ensures
            window.name@.len() == 0,
            window.background@.len() == 0,
            window.title@.len() == 0,
            window.selector@.len() == 0,
            !window.resizeable,
            !window.active,
            window.theme == Theme::Default,
            window.constraint == Constraint::unbounded(),
            window.handlers@.len() == 0,
    {
        Window {
            name: String::new(),
            background: String::new(),
            title: String::new(),
            selector: String::new(),
            resizeable: false,
            active: false,
            theme: Theme::Default,
            constraint: Constraint::new(),
            handlers: Vec::new(),
        }
    }

    /// Adds a handler of window events behind those that the window has.
    pub fn on_window_event(self, handler: WindowEventHandler) -> (window: Window)
        ensures
            window.handlers@ == self.handlers@.push(handler),
            window.name == self.name,
            window.background == self.background,
            window.title == self.title,
            window.selector == self.selector,
            window.resizeable == self.resizeable,
            window.active == self.active,
            window.theme == self.theme,
            window.constraint == self.constraint,
    {
        let mut window = self;
        window.handlers.push(handler);
        window
    }

    /// Gives the window its defaults: name, background, a size of 100 by 100,
    /// selector, title, the default theme, not resizeable, and a handler that
    /// brings every window event to the window state of `id`.
    pub fn template(self, id: Entity) -> (window: Window)
        ensures
            window.name@ == "Window"@,
            window.background@ == BRIGHT_GRAY_COLOR@,
            window.constraint == (Constraint { width: 100, height: 100, ..self.constraint }),
            window.selector@ == "window"@,
            window.title@ == "Window"@,
            window.theme == Theme::Default,
            !window.resizeable,
            window.active == self.active,
            window.handlers@ == self.handlers@.push(WindowEventHandler { target: id }),
    {
        let mut constraint = self.constraint;
        constraint.set_size(100, 100);
        let window = Window {
            name: "Window".to_owned(),
            background: BRIGHT_GRAY_COLOR.to_owned(),
            title: "Window".to_owned(),
            selector: "window".to_owned(),
            resizeable: false,
            active: self.active,
            theme: Theme::Default,
            constraint,
            handlers: self.handlers,
        };
        window.on_window_event(WindowEventHandler { target: id })
    }

    /// Hands a window event to the window's first handler, which queues it and
    /// reports it as handled: no handler behind it sees the event. A window
    /// without handlers leaves the event unhandled.
    pub fn dispatch(&self, state: &mut WindowState, event: WindowEvent) -> (handled: bool)
        ensures
            handled == (self.handlers@.len() > 0),
            final(state)@ == if handled {
                old(state)@.push(event)
            } else {
                old(state)@
            },
    {
        if self.handlers.len() > 0 {
            self.handlers[0].handle(state, event)
        } else {
            false
        }
    }

    /// How the window is drawn: it clears the surface.
    pub fn render_object(&self) -> (strategy: RenderStrategy)
        ensures
            strategy == RenderStrategy::Clear,
    {
        RenderStrategy::Clear
    }

    /// How the window arranges its children: in a grid.
    pub fn layout(&self) -> (strategy: LayoutStrategy)
        ensures
            strategy == LayoutStrategy::Grid,
    {
        LayoutStrategy::Grid
    }
}

} // verus!
