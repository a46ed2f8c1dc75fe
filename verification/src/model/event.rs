//! What the remote, a keyboard or a gamepad asks of the menu.
use vstd::prelude::*;

verus! {

/// One debounced menu event.
#[derive(Clone, Copy, Debug, PartialEq, Eq, Structural)]
pub enum MenuEvent {
    Up,
    Down,
    Left,
    Right,
    Confirm,
    Back,
    /// A third action, kept apart from Back and Confirm so that it is never hit by accident.
    Secondary,
}

} // verus!
