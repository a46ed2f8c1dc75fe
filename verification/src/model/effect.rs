//! Side effects that the menu logic asks its caller to perform.
use vstd::prelude::*;

verus! {

/// One fire-and-forget operation.
#[derive(Clone, Copy, Debug, PartialEq, Eq, Structural)]
pub enum Effect {
    /// Show or hide the on-screen log overlay.
    SetLogOverlay(bool),
}

/// Applies `effect` to the overlay flag that the stream view reads.
pub fn execute(effect: Effect, log_overlay: &mut bool)
    ensures
        effect matches Effect::SetLogOverlay(on) ==> *final(log_overlay) == on,
{
    match effect {
        Effect::SetLogOverlay(on) => {
            *log_overlay = on;
        },
    }
}

} // verus!
