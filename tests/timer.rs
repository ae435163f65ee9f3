use countdown::control::{Control, Phase};
use countdown::countdown::{Countdown, WaitOutcome};
use countdown::error::TimerError;
use countdown::interval::{duration_to_millis, Interval};

/// Runs a countdown against a virtual clock, the way the background loop
/// runs it against real time: the liveness flag drops at `stop_at`, a reset
/// at each time in `resets` wakes a wait in progress, and every wait uses the
/// random draw `draw`. Returns the expiry count once the loop has exited, and
/// the times at which the count went up.
fn simulate_trace(
    step_ms: u64,
    jitter_ms: u64,
    draw: u64,
    resets: &[u64],
    stop_at: u64,
) -> (u64, Vec<u64>) {
    let interval = Interval::new(step_ms, jitter_ms).unwrap();
    let mut c = Countdown::new(interval);
    c.begin();
    let mut now: u64 = 0;
    let mut expired_at = Vec::new();
    while c.keep_going(now < stop_at) {
        let end = now + c.interval().wait_for(draw);
        match resets.iter().find(|&&r| r > now && r < end) {
            Some(&r) => {
                c.record(WaitOutcome::Woken);
                now = r;
            }
            None => {
                if c.record(WaitOutcome::TimedOut) {
                    expired_at.push(end);
                }
                now = end;
            }
        }
    }
    assert_eq!(c.expiries() as usize, expired_at.len());
    (c.expiries(), expired_at)
}

fn simulate(step_ms: u64, jitter_ms: u64, draw: u64, resets: &[u64], stop_at: u64) -> u64 {
    simulate_trace(step_ms, jitter_ms, draw, resets, stop_at).0
}

#[test]
fn it_works() {
    let d = duration_to_millis(5, 0);
    let j = duration_to_millis(0, 0);
    let c = Countdown::new(Interval::new(d, j).unwrap());
    assert!(c.is_alive() == false);
    assert_eq!(c.expiries(), 0);
    assert!(!Control::new().is_running());
}

#[test]
fn timer_start() {
    let n = simulate(50, 0, 0, &[], 100);
    assert!(n >= 2);
    assert!(n < 5);
}

#[test]
fn timer_reset() {
    let n = simulate(50, 10, 5, &[125], 125 + 100);
    assert!(n >= 4);
    assert!(n < 6);
}

#[test]
fn reset_defers_pending_expiry() {
    // Without the reset the countdown would have expired at 50.
    let (_, expired_at) = simulate_trace(50, 0, 0, &[45], 90);
    assert_eq!(expired_at.iter().filter(|&&t| t <= 90).count(), 0);
    let (_, undisturbed) = simulate_trace(50, 0, 0, &[], 90);
    assert_eq!(undisturbed.iter().filter(|&&t| t <= 90).count(), 1);
}

#[test]
fn reset_keeps_cadence() {
    // After the reset at 45 the waits end at 95, 145 and 195.
    let (n, expired_at) = simulate_trace(50, 0, 0, &[45], 190);
    assert_eq!(n, 3);
    assert_eq!(expired_at, vec![95, 145, 195]);
}

#[test]
fn cadence_without_resets() {
    assert_eq!(simulate(50, 0, 0, &[], 1000), 20);
    assert_eq!(simulate(50, 0, 0, &[], 1001), 21);
}

#[test]
fn duration_millis_exact() {
    assert_eq!(duration_to_millis(1, 500_000_000), 1500);
    assert_eq!(duration_to_millis(0, 999_999), 0);
    assert_eq!(duration_to_millis(0, 50_000_000), 50);
    assert_eq!(duration_to_millis(u64::MAX, 0), u64::MAX);
    assert_eq!(duration_to_millis(u64::MAX / 1000, 614_000_000), u64::MAX - 1);
    assert_eq!(duration_to_millis(u64::MAX / 1000, 999_000_000), u64::MAX);
}

#[test]
fn interval_validation() {
    assert!(Interval::new(0, 0).is_ok());
    assert!(Interval::new(50, 0).is_ok());
    assert!(Interval::new(50, 49).is_ok());
    assert_eq!(Interval::new(50, 50), Err(TimerError::InvalidJitter));
    assert_eq!(Interval::new(5, 10), Err(TimerError::InvalidJitter));
    let i = Interval::new(50, 10).unwrap();
    assert_eq!(i.step_ms(), 50);
    assert_eq!(i.jitter_ms(), 10);
}

#[test]
fn wait_for_exact() {
    let i = Interval::new(50, 10).unwrap();
    assert_eq!(i.wait_for(7), 43);
    assert_eq!(i.wait_for(20), 50);
    assert_eq!(i.wait_for(u64::MAX), 45);
    let flat = Interval::new(50, 0).unwrap();
    assert_eq!(flat.wait_for(7), 50);
}

#[test]
fn jittered_waits_stay_in_window() {
    let c = Countdown::new(Interval::new(50, 10).unwrap());
    let mut seen_short = false;
    for _ in 0..2000 {
        let w = c.next_wait();
        assert!(w > 40 && w <= 50);
        if w < 50 {
            seen_short = true;
        }
    }
    assert!(seen_short);
    let flat = Countdown::new(Interval::new(50, 0).unwrap());
    assert_eq!(flat.next_wait(), 50);
    let i = Interval::new(3, 2).unwrap();
    for _ in 0..100 {
        let w = i.calculate_wait_duration();
        assert!(w == 2 || w == 3);
    }
}

#[test]
fn stop_before_start_fails() {
    let mut k = Control::new();
    assert_eq!(k.stop(), Err(TimerError::NotRunning));
    assert_eq!(k.phase, Phase::Dormant);
}

#[test]
fn double_stop_fails() {
    let mut k = Control::new();
    assert_eq!(k.start(), Ok(()));
    assert!(k.is_running());
    assert_eq!(k.stop(), Ok(()));
    assert_eq!(k.phase, Phase::Stopped);
    assert_eq!(k.stop(), Err(TimerError::NotRunning));
}

#[test]
fn start_twice_fails() {
    let mut k = Control::new();
    assert_eq!(k.start(), Ok(()));
    assert_eq!(k.start(), Err(TimerError::AlreadyRunning));
    assert_eq!(k.stop(), Ok(()));
    assert_eq!(k.start(), Err(TimerError::AlreadyStopped));
    assert_eq!(k.phase, Phase::Stopped);
}

#[test]
fn timeout_counts_only_while_alive() {
    let mut c = Countdown::new(Interval::new(50, 0).unwrap());
    assert!(!c.record(WaitOutcome::TimedOut));
    assert_eq!(c.expiries(), 0);
    c.begin();
    assert!(c.record(WaitOutcome::TimedOut));
    assert!(!c.record(WaitOutcome::Woken));
    assert!(!c.record(WaitOutcome::Failed));
    assert!(c.record(WaitOutcome::TimedOut));
    assert_eq!(c.expiries(), 2);
}

#[test]
fn stopped_loop_is_terminal() {
    let mut c = Countdown::new(Interval::new(50, 0).unwrap());
    c.begin();
    assert!(c.keep_going(true));
    assert!(!c.keep_going(false));
    assert!(!c.keep_going(true));
    assert!(!c.is_alive());
    assert!(!c.record(WaitOutcome::TimedOut));
    assert_eq!(c.expiries(), 0);
}
