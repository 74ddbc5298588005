//! The events that the platform reports for a window.

use vstd::prelude::*;

verus! {

/// An event of the window as a whole.
#[derive(Copy, Clone, Debug, PartialEq, Eq, Structural)]
pub enum WindowEvent {
    /// The platform gave the window a new size.
    Resize { width: u32, height: u32 },
    /// The window gained (`true`) or lost (`false`) the user's attention.
    ActiveChanged(bool),
    /// Any event that the window state does not own.
    Other,
}

} // verus!
