//! EMAC software reset: the reset state machine and the poll budget.

use vstd::prelude::*;
use crate::constants::RESET_POLL_INTERVAL_US;

verus! {

/// Software reset state.
#[derive(Debug, Clone, Copy, PartialEq, Eq, Structural)]
pub enum ResetState {
    /// No reset under way
    Normal,
    /// Reset requested, not yet complete
    Resetting,
    /// Reset complete, not yet acknowledged
    ResetComplete,
}

impl Default for ResetState {
    /// Normal.
    fn default() -> (r: Self)
        ensures
            r == ResetState::Normal,
    {
        ResetState::Normal
    }
}

impl ResetState {
    /// The state after a poll that found the reset bit clear (`reset_done`)
    /// or still set, and whether the reset is complete: a reset under way
    /// completes when the bit has cleared.
    pub fn poll(self, reset_done: bool) -> (r: (ResetState, bool))
        ensures
            self == ResetState::Resetting && reset_done ==> r == (ResetState::ResetComplete, true),
            !(self == ResetState::Resetting && reset_done) ==> r == (
                self,
                self == ResetState::ResetComplete,
            ),
    {
        match self {
            ResetState::Resetting => {
                if reset_done {
                    (ResetState::ResetComplete, true)
                } else {
                    (ResetState::Resetting, false)
                }
            },
            ResetState::ResetComplete => (ResetState::ResetComplete, true),
            ResetState::Normal => (ResetState::Normal, false),
        }
    }

    /// The state after a blocking reset that succeeded (`ok`) or timed out.
    pub fn after_reset(ok: bool) -> (r: ResetState)
        ensures
            ok ==> r == ResetState::ResetComplete,
            !ok ==> r == ResetState::Normal,
    {
        if ok {
            ResetState::ResetComplete
        } else {
            ResetState::Normal
        }
    }
}

/// How many times a reset allowed `timeout_ms` milliseconds polls the reset
/// bit, one poll per `RESET_POLL_INTERVAL_US` microseconds.
pub fn reset_poll_count(timeout_ms: u32) -> (r: u32)
    requires
        timeout_ms * 1000 <= u32::MAX,
    ensures
        r == (timeout_ms * 1000) / (RESET_POLL_INTERVAL_US as int),
{
    (timeout_ms * 1000) / RESET_POLL_INTERVAL_US
}

} // verus!
