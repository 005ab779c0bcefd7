use loadgen::pacing::{PaceAction, PacingScheduler, TickOutcome};

/// Runs the scheduler against a simulated clock; returns (end_ms, ticks, sleeps, overruns).
fn simulate(duration: u64, work_ms: u64) -> (u64, u64, u64, u64) {
    let mut s = PacingScheduler::new(duration);
    let mut now = 0u64;
    let mut sleeps = 0u64;
    while s.next_action(now, false) == PaceAction::Tick {
        let out = s.record_tick(work_ms, true);
        if out.sleep_ms > 0 {
            sleeps += 1;
        }
        now += work_ms + out.sleep_ms;
    }
    (now, s.ticks, sleeps, s.overruns)
}

#[test]
fn steady_run_ends_after_its_duration() {
    assert_eq!(simulate(3, 200), (3000, 3, 3, 0));
    assert_eq!(simulate(1, 999), (1000, 1, 1, 0));
    let (end, ticks, _, _) = simulate(5, 1000);
    assert_eq!((end, ticks), (5000, 5));
}

#[test]
fn zero_duration_runs_no_tick() {
    let s = PacingScheduler::new(0);
    assert_eq!(s.next_action(0, false), PaceAction::Finish);
    assert_eq!(simulate(0, 10), (0, 0, 0, 0));
}

#[test]
fn overrunning_ticks_never_sleep_and_still_end() {
    let (end, ticks, sleeps, overruns) = simulate(3, 1500);
    assert_eq!(ticks, 2);
    assert_eq!(sleeps, 0);
    assert_eq!(overruns, 2);
    assert!(end >= 3000 && end < 3000 + 1500);
}

#[test]
fn tick_outcome_gives_the_rest_of_the_second() {
    let mut s = PacingScheduler::new(10);
    assert_eq!(
        s.record_tick(250, true),
        TickOutcome { elapsed_ms: 250, sleep_ms: 750, overrun: false }
    );
    assert_eq!(
        s.record_tick(1200, true),
        TickOutcome { elapsed_ms: 1200, sleep_ms: 0, overrun: true }
    );
    assert_eq!((s.ticks, s.overruns, s.failed), (2, 1, false));
}

#[test]
fn failed_tick_or_cancellation_finishes_the_run() {
    let mut s = PacingScheduler::new(10);
    assert_eq!(s.next_action(500, true), PaceAction::Finish);
    assert_eq!(s.next_action(9999, false), PaceAction::Tick);
    assert_eq!(s.next_action(10000, false), PaceAction::Finish);
    let out = s.record_tick(100, false);
    assert_eq!(out.sleep_ms, 0);
    assert!(s.failed);
    assert_eq!(s.next_action(500, false), PaceAction::Finish);
}
