use vstd::prelude::*;

use crate::error::TimerError;

verus! {

/// Where a timer stands in its life, as the controlling side sees it.
#[derive(Debug, Clone, Copy, PartialEq, Eq, Structural)]
pub enum Phase {
    /// Built and not yet started.
    Dormant,
    /// Started: a background loop exists and may be joined.
    Running,
    /// Stopped: the background loop has been joined; terminal.
    Stopped,
}

/// The phase that `start` moves to from `p`, or the error it reports.
pub open spec fn start_spec(p: Phase) -> Result<Phase, TimerError> {
    match p {
        Phase::Dormant => Ok(Phase::Running),
        Phase::Running => Err(TimerError::AlreadyRunning),
        Phase::Stopped => Err(TimerError::AlreadyStopped),
    }
}

/// The phase that `stop` moves to from `p`, or the error it reports.
pub open spec fn stop_spec(p: Phase) -> Result<Phase, TimerError> {
    match p {
        Phase::Running => Ok(Phase::Stopped),
        _ => Err(TimerError::NotRunning),
    }
}

/// The controlling side of a timer: which operations are allowed now.
#[derive(Debug, Clone, Copy, PartialEq, Eq, Structural)]
pub struct Control {
    pub phase: Phase,
}

impl Control {
    /// A control for a freshly built timer: dormant.
    pub fn new() -> (r: Control)
        ensures
            r.phase == Phase::Dormant,
    {
        Control { phase: Phase::Dormant }
    }

    /// True while a background loop is owned and must be joined by `stop`.
    pub fn is_running(&self) -> (r: bool)
        ensures
            r == (self.phase == Phase::Running),
    {
        match self.phase {
            Phase::Running => true,
            _ => false,
        }
    }

    /// Moves a dormant control to running; refuses every other phase and
    /// leaves it unchanged.
    pub fn start(&mut self) -> (r: Result<(), TimerError>)
        ensures
            match start_spec(old(self).phase) {
                Ok(p) => r is Ok && final(self).phase == p,
                Err(e) => r == Err::<(), TimerError>(e) && final(self).phase == old(self).phase,
            },
    {
        match self.phase {
            Phase::Dormant => {
                self.phase = Phase::Running;
                Ok(())
            },
            Phase::Running => Err(TimerError::AlreadyRunning),
            Phase::Stopped => Err(TimerError::AlreadyStopped),
        }
    }

    /// Moves a running control to stopped; refuses every other phase and
    /// leaves it unchanged.
    pub fn stop(&mut self) -> (r: Result<(), TimerError>)
        ensures
            match stop_spec(old(self).phase) {
                Ok(p) => r is Ok && final(self).phase == p,
                Err(e) => r == Err::<(), TimerError>(e) && final(self).phase == old(self).phase,
            },
    {
        match self.phase {
            Phase::Running => {
                self.phase = Phase::Stopped;
                Ok(())
            },
            _ => Err(TimerError::NotRunning),
        }
    }
}

/// Stopping a timer that was never started fails, and so does stopping a
/// timer a second time: a stop succeeds only on a running timer, and what it
/// leaves behind can never be stopped again, nor started.
pub proof fn lemma_stop_only_once(p: Phase)
    ensures
        p == Phase::Dormant ==> stop_spec(p) == Err::<Phase, TimerError>(TimerError::NotRunning),
        stop_spec(p) is Ok ==> stop_spec(stop_spec(p)->Ok_0) == Err::<Phase, TimerError>(
            TimerError::NotRunning,
        ),
        stop_spec(p) is Ok ==> start_spec(stop_spec(p)->Ok_0) is Err,
{
}

} // verus!
