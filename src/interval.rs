use vstd::prelude::*;

use crate::error::TimerError;

verus! {

/// Milliseconds in a duration of `secs` whole seconds and `nanos` nanoseconds.
pub open spec fn millis_of(secs: int, nanos: int) -> int {
    secs * 1000 + nanos / 1_000_000
}

/// A step and a jitter (both in milliseconds) that a countdown can use:
/// either no jitter, or a jitter strictly smaller than the step.
pub open spec fn valid_config(step_ms: int, jitter_ms: int) -> bool {
    jitter_ms == 0 || jitter_ms < step_ms
}

/// The wait a countdown cycle uses for a given random draw.
pub open spec fn wait_spec(step_ms: int, jitter_ms: int, random: int) -> int {
    if jitter_ms > 0 {
        step_ms - random % jitter_ms
    } else {
        step_ms
    }
}

/// What every wait of a countdown with this step and jitter satisfies: with
/// a jitter, it lies above the step less the jitter and at most the step;
/// without one, it is the step.
pub open spec fn cadence_ok(step_ms: int, jitter_ms: int, w: int) -> bool {
    &&& jitter_ms > 0 ==> step_ms - jitter_ms < w <= step_ms
    &&& jitter_ms == 0 ==> w == step_ms
}

/// Relies on rand::random (rand 0.8): a value drawn from the thread-local
/// generator; nothing is known of which value.
pub assume_specification<T>[ rand::random::<T> ]() -> (r: T)
    where
        rand::distributions::Standard: rand::distributions::Distribution<T>,
;

/// Converts a duration, given as whole seconds and the sub-second nanoseconds,
/// to whole milliseconds (rounding down), saturating at `u64::MAX`.
pub fn duration_to_millis(secs: u64, subsec_nanos: u32) -> (r: u64)
    ensures
        r as int == if millis_of(secs as int, subsec_nanos as int) <= u64::MAX {
            millis_of(secs as int, subsec_nanos as int)
        } else {
            u64::MAX as int
        },
{
    let sub: u64 = subsec_nanos as u64 / 1_000_000;
    if secs > (u64::MAX - sub) / 1000 {
        assert(secs * 1000 + sub > u64::MAX) by (nonlinear_arith)
            requires
                secs > (u64::MAX - sub) / 1000,
                sub <= u64::MAX,
        ;
        u64::MAX
    } else {
        assert(secs * 1000 + sub <= u64::MAX) by (nonlinear_arith)
            requires
                secs <= (u64::MAX - sub) / 1000,
                sub <= u64::MAX,
        ;
        1000 * secs + sub
    }
}

/// The base interval of a countdown and the window of random reduction
/// applied to it in each cycle, both in milliseconds.
#[derive(Debug, Clone, Copy, PartialEq, Eq, Structural)]
pub struct Interval {
    step_ms: u64,
    jitter_ms: u64,
}

impl Interval {
    pub closed spec fn step_spec(&self) -> int {
        self.step_ms as int
    }

    pub closed spec fn jitter_spec(&self) -> int {
        self.jitter_ms as int
    }

    /// Every interval that can be built satisfies this.
    pub open spec fn wf(&self) -> bool {
        valid_config(self.step_spec(), self.jitter_spec())
    }

    /// Builds an interval; a non-zero jitter that is not below the step is refused.
    pub fn new(step_ms: u64, jitter_ms: u64) -> (r: Result<Interval, TimerError>)
        ensures
            valid_config(step_ms as int, jitter_ms as int) <==> r is Ok,
            r is Ok ==> r->Ok_0.wf() && r->Ok_0.step_spec() == step_ms
                && r->Ok_0.jitter_spec() == jitter_ms,
            r is Err ==> r->Err_0 == TimerError::InvalidJitter,
    {
        if jitter_ms == 0 || jitter_ms < step_ms {
            Ok(Interval { step_ms, jitter_ms })
        } else {
            Err(TimerError::InvalidJitter)
        }
    }

    pub fn step_ms(&self) -> (r: u64)
        ensures
            r == self.step_spec(),
    {
        self.step_ms
    }

    pub fn jitter_ms(&self) -> (r: u64)
        ensures
            r == self.jitter_spec(),
    {
        self.jitter_ms
    }

    /// The wait of one cycle for the random draw `random`: the step, less
    /// `random` reduced modulo the jitter when there is a jitter.
    pub fn wait_for(&self, random: u64) -> (r: u64)
        requires
            self.wf(),
        ensures
            r == wait_spec(self.step_spec(), self.jitter_spec(), random as int),
            cadence_ok(self.step_spec(), self.jitter_spec(), r as int),
    {
        if self.jitter_ms > 0 {
            self.step_ms - random % self.jitter_ms
        } else {
            self.step_ms
        }
    }

    /// Draws a random number and computes the wait of one cycle from it.
    pub fn calculate_wait_duration(&self) -> (r: u64)
        requires
            self.wf(),
        ensures
            exists|random: u64| r == wait_spec(self.step_spec(), self.jitter_spec(), random as int),
            cadence_ok(self.step_spec(), self.jitter_spec(), r as int),
    {
        let random = rand::random::<u64>();
        self.wait_for(random)
    }
}

} // verus!
