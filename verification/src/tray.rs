//! Whether notifications are muted.

use vstd::prelude::*;

verus! {

/// The mute switch of notifications. It starts unmuted.
#[derive(Debug, Clone, Copy, PartialEq, Eq, Structural)]
pub struct NotificationState {
    pub muted: bool,
}

impl NotificationState {
    /// The switch as it stands when the program starts: not muted.
    pub fn new() -> (state: Self)
        ensures
            !state.muted,
    {
        NotificationState { muted: false }
    }
}

/// Whether notifications are muted.
pub fn is_muted(state: &NotificationState) -> (muted: bool)
    ensures
        muted == state.muted,
{
    state.muted
}

/// Flips the switch and says how it stands now.
pub fn toggle_mute(state: &mut NotificationState) -> (muted: bool)
    ensures
        muted == !old(state).muted,
        final(state).muted == muted,
{
    state.muted = !state.muted;
    state.muted
}

} // verus!
