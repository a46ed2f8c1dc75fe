//! Input events as the client collects them, before a backend puts them on the wire.
use vstd::prelude::*;

verus! {

/// What an input event reports.
#[derive(Clone, Copy, Debug, PartialEq, Eq, Structural)]
pub enum InputKind {
    KeyDown,
    KeyUp,
    MouseMove,
    MouseMoveAbs,
    MouseButtonDown,
    MouseButtonUp,
    MouseScroll,
    GamepadButton,
    GamepadAxis,
    GamepadRemove,
    GamepadState,
    GamepadArrival,
    TouchDown,
    TouchMove,
    TouchUp,
    TextInput,
}

/// One input event. What `code`, `x`, `y` and `flags` hold depends on the kind.
#[derive(Clone, Copy, Debug, PartialEq, Eq, Structural)]
pub struct InputEvent {
    pub kind: InputKind,
    pub code: u32,
    pub x: i32,
    pub y: i32,
    pub flags: u32,
}

/// The code of the horizontal axis of the left stick.
pub const AXIS_LS_X: u32 = 0;

/// The code of the vertical axis of the left stick.
pub const AXIS_LS_Y: u32 = 1;

/// The code of the horizontal axis of the right stick.
pub const AXIS_RS_X: u32 = 2;

/// The code of the vertical axis of the right stick.
pub const AXIS_RS_Y: u32 = 3;

/// The code of the left trigger.
pub const AXIS_LT: u32 = 4;

/// The code of the right trigger.
pub const AXIS_RT: u32 = 5;

/// The bit of the A button.
pub const BTN_A: u32 = 0x1000;

/// The bit of the B button.
pub const BTN_B: u32 = 0x2000;

/// The bit of the X button.
pub const BTN_X: u32 = 0x4000;

/// The bit of the Y button.
pub const BTN_Y: u32 = 0x8000;

} // verus!
