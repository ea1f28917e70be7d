//! The timer that is driven, as this library sees it.

use vstd::prelude::*;

verus! {

/// What the timer is doing.
#[derive(Clone, Copy, Debug, PartialEq, Eq, Structural)]
pub enum TimerState {
    /// No run is being timed.
    NotRunning,
    Running,
    Paused,
    /// The run has ended and the timer has not been reset yet.
    Ended,
    /// The timer does not say.
    Unknown,
}

} // verus!
