//! Window event handling and layout alignment for a retained-mode UI toolkit.
//!
//! [`alignment`] holds the pure geometry rules that a layout pass consults for
//! every widget. [`window`] holds the state machine that applies queued window
//! events, one per tick, to the widget tree in [`tree`]. [`widget`] holds the
//! window widget itself, which brings the platform's events to that queue.

pub mod alignment;
pub mod event;
pub mod geometry;
pub mod tree;
pub mod widget;
pub mod window;
