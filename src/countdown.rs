use vstd::prelude::*;

use crate::interval::{cadence_ok, Interval};

verus! {

/// How one bounded wait of the background loop ended.
#[derive(Debug, Clone, Copy, PartialEq, Eq, Structural)]
pub enum WaitOutcome {
    /// The full wait elapsed with no reset: a genuine timeout.
    TimedOut,
    /// A reset woke the loop before the wait elapsed.
    Woken,
    /// The wait primitive reported a failure; the loop carries on.
    Failed,
}

/// What the background loop's state amounts to.
pub struct CountdownView {
    pub alive: bool,
    pub expiries: nat,
    pub step: int,
    pub jitter: int,
}

/// The expiry count after one wait ends with `o`, from a loop that is `alive`
/// with `expiries` expiries so far; the count saturates at `u64::MAX`.
pub open spec fn record_spec(alive: bool, expiries: nat, o: WaitOutcome) -> nat {
    if alive && o == WaitOutcome::TimedOut && expiries < u64::MAX {
        expiries + 1
    } else {
        expiries
    }
}

/// The expiry count after the waits of `s` end, in order, starting from
/// `expiries`, while the loop's liveness stays `alive`.
pub open spec fn replay(alive: bool, expiries: nat, s: Seq<WaitOutcome>) -> nat
    decreases s.len(),
{
    if s.len() == 0 {
        expiries
    } else {
        record_spec(alive, replay(alive, expiries, s.drop_last()), s.last())
    }
}

/// The number of genuine timeouts in `s`.
pub open spec fn timeouts(s: Seq<WaitOutcome>) -> nat
    decreases s.len(),
{
    if s.len() == 0 {
        0
    } else {
        timeouts(s.drop_last()) + if s.last() == WaitOutcome::TimedOut {
            1nat
        } else {
            0nat
        }
    }
}

/// The state kept by the background loop of a timer: its interval, whether
/// it is alive, and how many genuine timeouts it has counted.
pub struct Countdown {
    interval: Interval,
    alive: bool,
    expiries: u64,
}

impl View for Countdown {
    type V = CountdownView;

    closed spec fn view(&self) -> CountdownView {
        CountdownView {
            alive: self.alive,
            expiries: self.expiries as nat,
            step: self.interval.step_spec(),
            jitter: self.interval.jitter_spec(),
        }
    }
}

impl Countdown {
    /// Every countdown that can be built satisfies this.
    pub closed spec fn wf(&self) -> bool {
        self.interval.wf()
    }

    /// A countdown for `interval`, not yet alive, with no expiries.
    pub fn new(interval: Interval) -> (r: Countdown)
        requires
            interval.wf(),
        ensures
            r.wf(),
            !r@.alive,
            r@.expiries == 0,
            r@.step == interval.step_spec(),
            r@.jitter == interval.jitter_spec(),
    {
        Countdown { interval, alive: false, expiries: 0 }
    }

    pub fn is_alive(&self) -> (r: bool)
        ensures
            r == self@.alive,
    {
        self.alive
    }

    pub fn expiries(&self) -> (r: u64)
        ensures
            r == self@.expiries,
    {
        self.expiries
    }

    pub fn interval(&self) -> (r: Interval)
        requires
            self.wf(),
        ensures
            r.wf(),
            r.step_spec() == self@.step,
            r.jitter_spec() == self@.jitter,
    {
        self.interval
    }

    /// The loop marks itself alive as it begins.
    pub fn begin(&mut self)
        ensures
            final(self).wf() == old(self).wf(),
            final(self)@ == (CountdownView { alive: true, ..old(self)@ }),
    {
        self.alive = true;
    }

    /// Takes in the shared liveness flag at the top of a cycle and says
    /// whether the loop goes on. Once the loop has seen the flag down it stays
    /// down.
    pub fn keep_going(&mut self, flag: bool) -> (r: bool)
        ensures
            final(self).wf() == old(self).wf(),
            r == (old(self)@.alive && flag),
            final(self)@ == (CountdownView { alive: r, ..old(self)@ }),
    {
        self.alive = self.alive && flag;
        self.alive
    }

    /// The duration, in milliseconds, of the next wait: the step, reduced by
    /// a random amount below the jitter.
    pub fn next_wait(&self) -> (r: u64)
        requires
            self.wf(),
        ensures
            cadence_ok(self@.step, self@.jitter, r as int),
    {
        self.interval.calculate_wait_duration()
    }

    /// Records how a wait ended. Returns true when the observers must be
    /// signalled: the wait was a genuine timeout of a live loop. Then the
    /// expiry count goes up by one (saturating); otherwise nothing changes.
    pub fn record(&mut self, outcome: WaitOutcome) -> (r: bool)
        ensures
            final(self).wf() == old(self).wf(),
            r == (old(self)@.alive && outcome == WaitOutcome::TimedOut),
            final(self)@ == (CountdownView {
                expiries: record_spec(old(self)@.alive, old(self)@.expiries, outcome),
                ..old(self)@
            }),
    {
        match outcome {
            WaitOutcome::TimedOut => {
                if self.alive {
                    if self.expiries < u64::MAX {
                        self.expiries = self.expiries + 1;
                    }
                    true
                } else {
                    false
                }
            },
            _ => false,
        }
    }
}

/// The expiry count never goes down.
pub proof fn lemma_expiries_monotonic(alive: bool, expiries: nat, s: Seq<WaitOutcome>)
    ensures
        replay(alive, expiries, s) >= expiries,
    decreases s.len(),
{
    if s.len() > 0 {
        lemma_expiries_monotonic(alive, expiries, s.drop_last());
    }
}

/// While the loop is alive, and short of saturation, the expiry count grows
/// by exactly the number of genuine timeouts.
pub proof fn lemma_counts_timeouts(expiries: nat, s: Seq<WaitOutcome>)
    requires
        expiries + timeouts(s) <= u64::MAX,
    ensures
        replay(true, expiries, s) == expiries + timeouts(s),
    decreases s.len(),
{
    if s.len() > 0 {
        lemma_counts_timeouts(expiries, s.drop_last());
    }
}

/// A wait that a reset cut short adds no expiry: the pending expiry is
/// deferred, whatever came before.
pub proof fn lemma_reset_defers_expiry(alive: bool, expiries: nat, s: Seq<WaitOutcome>)
    ensures
        replay(alive, expiries, s.push(WaitOutcome::Woken)) == replay(alive, expiries, s),
{
    assert(s.push(WaitOutcome::Woken).drop_last() =~= s);
}

/// Once the loop has stopped, no wait outcome changes the expiry count.
pub proof fn lemma_stopped_counts_nothing(expiries: nat, s: Seq<WaitOutcome>)
    ensures
        replay(false, expiries, s) == expiries,
    decreases s.len(),
{
    if s.len() > 0 {
        lemma_stopped_counts_nothing(expiries, s.drop_last());
    }
}

} // verus!
