//! Types shared by every screen and every protocol.
pub mod effect;
pub mod event;
pub mod protocol;
