use vstd::prelude::*;

verus! {

/// Why a timer operation was refused.
#[derive(Debug, Clone, Copy, PartialEq, Eq, Structural)]
pub enum TimerError {
    /// A non-zero jitter that is not smaller than the step: the jittered wait
    /// could not be computed without underflow.
    InvalidJitter,
    /// `start` on a timer that is already running.
    AlreadyRunning,
    /// `start` on a timer that has been stopped; a stopped timer stays stopped.
    AlreadyStopped,
    /// `stop` on a timer that is not running (never started, or stopped before).
    NotRunning,
}

} // verus!
