//! Pacing of a single generator: one tick per wall-clock second for a
//! bounded number of seconds.
use vstd::prelude::*;

verus! {

/// The nominal length of one tick, in milliseconds.
pub const TICK_MS: u64 = 1000;

/// Whether a run of `duration_secs` seconds still owes a tick once
/// `elapsed_ms` milliseconds have passed since it started.
pub open spec fn owes_tick(duration_secs: nat, elapsed_ms: nat) -> bool {
    elapsed_ms < duration_secs * 1000
}

/// The time left to sleep after a tick whose work took `work_ms`.
pub open spec fn sleep_after(work_ms: nat) -> nat {
    if work_ms < 1000 {
        (1000 - work_ms) as nat
    } else {
        0
    }
}

/// Whether a tick whose work took `work_ms` overran its one-second budget.
pub open spec fn overran(work_ms: nat) -> bool {
    work_ms >= 1000
}

/// Wall-clock length of a tick: its work followed by its sleep.
pub open spec fn tick_span(work_ms: nat) -> nat {
    work_ms + sleep_after(work_ms)
}

/// Milliseconds of the run still ahead at `now_ms`.
pub open spec fn remaining_ms(duration_secs: nat, now_ms: nat) -> nat {
    if now_ms < duration_secs * 1000 {
        (duration_secs * 1000 - now_ms) as nat
    } else {
        0
    }
}

/// The time at which a paced run of `duration_secs` seconds ends, when it
/// stands at `now_ms` before its tick number `k`, and tick `i` works for
/// `work(i)` milliseconds.
pub open spec fn paced_end(duration_secs: nat, now_ms: nat, k: nat, work: spec_fn(nat) -> nat) -> nat
    decreases remaining_ms(duration_secs, now_ms),
{
    if owes_tick(duration_secs, now_ms) {
        paced_end(duration_secs, now_ms + tick_span(work(k)), k + 1, work)
    } else {
        now_ms
    }
}

/// The number of ticks that such a run still executes.
pub open spec fn paced_ticks(duration_secs: nat, now_ms: nat, k: nat, work: spec_fn(nat) -> nat) -> nat
    decreases remaining_ms(duration_secs, now_ms),
{
    if owes_tick(duration_secs, now_ms) {
        1 + paced_ticks(duration_secs, now_ms + tick_span(work(k)), k + 1, work)
    } else {
        0
    }
}


/// What the caller's loop does next.
#[derive(Debug, Clone, Copy, PartialEq, Eq, Structural)]
pub enum PaceAction {
    /// Run one tick of the generator.
    Tick,
    /// The run is over: the duration elapsed, the run was cancelled, or a
    /// tick failed.
    Finish,
}

/// What the scheduler decided about one completed tick.
#[derive(Debug, Clone, Copy, PartialEq, Eq, Structural)]
pub struct TickOutcome {
    /// Milliseconds that the generator's work took.
    pub elapsed_ms: u64,
    /// Milliseconds to sleep before the next tick.
    pub sleep_ms: u64,
    /// The work alone used up the one-second budget.
    pub overrun: bool,
}

/// Drives one generator at one tick per second for `duration_secs` seconds.
///
/// The caller owns the clock: it asks `next_action` with the time elapsed
/// since the run started, runs a tick when told to, reports it with
/// `record_tick` and sleeps for the time that comes back.
#[derive(Debug, Clone, Copy, PartialEq, Eq, Structural)]
pub struct PacingScheduler {
    pub duration_secs: u64,
    /// Ticks recorded so far.
    pub ticks: u64,
    /// Recorded ticks that overran their budget.
    pub overruns: u64,
    /// A tick failed: no further tick is run.
    pub failed: bool,
}

impl PacingScheduler {
    pub fn new(duration_secs: u64) -> (r: PacingScheduler)
        ensures
            r.duration_secs == duration_secs,
            r.ticks == 0,
            r.overruns == 0,
            !r.failed,
    {
        PacingScheduler { duration_secs, ticks: 0, overruns: 0, failed: false }
    }

    /// Decides whether another tick runs, `elapsed_ms` after the start.
    pub fn next_action(&self, elapsed_ms: u64, cancelled: bool) -> (r: PaceAction)
        ensures
            r == (if !cancelled && !self.failed && owes_tick(
                self.duration_secs as nat,
                elapsed_ms as nat,
            ) {
                PaceAction::Tick
            } else {
                PaceAction::Finish
            }),
    {
        if cancelled || self.failed {
            return PaceAction::Finish;
        }
        let d = self.duration_secs;
        let secs = elapsed_ms / TICK_MS;
        assert(secs < d <==> elapsed_ms < d * 1000) by (nonlinear_arith)
            requires
                secs == elapsed_ms / 1000,
        ;
        if secs < d {
            PaceAction::Tick
        } else {
            PaceAction::Finish
        }
    }

    /// Records a tick whose work took `work_ms` and succeeded or not, and
    /// says how long to sleep before the next one.
    pub fn record_tick(&mut self, work_ms: u64, succeeded: bool) -> (r: TickOutcome)
        ensures
            r.elapsed_ms == work_ms,
            r.overrun == overran(work_ms as nat),
            succeeded ==> r.sleep_ms == sleep_after(work_ms as nat),
            !succeeded ==> r.sleep_ms == 0,
            final(self).duration_secs == old(self).duration_secs,
            final(self).failed == (old(self).failed || !succeeded),
            final(self).ticks == if old(self).ticks < u64::MAX {
                old(self).ticks + 1
            } else {
                old(self).ticks as int
            },
            final(self).overruns == if overran(work_ms as nat) && old(self).overruns < u64::MAX {
                old(self).overruns + 1
            } else {
                old(self).overruns as int
            },
    {
        self.ticks = self.ticks.saturating_add(1);
        let overrun = work_ms >= TICK_MS;
        if overrun {
            self.overruns = self.overruns.saturating_add(1);
        }
        if !succeeded {
            self.failed = true;
        }
        let sleep_ms = if succeeded && !overrun {
            TICK_MS - work_ms
        } else {
            0
        };
        TickOutcome { elapsed_ms: work_ms, sleep_ms, overrun }
    }
}

proof fn lemma_end_bounds(d: nat, now: nat, k: nat, work: spec_fn(nat) -> nat, p: nat)
    requires
        p >= 1000,
        forall|i: nat| #[trigger] work(i) <= p,
        now < d * 1000 + p,
    ensures
        d * 1000 <= paced_end(d, now, k, work) < d * 1000 + p,
    decreases remaining_ms(d, now),
{
    if owes_tick(d, now) {
        lemma_end_bounds(d, now + tick_span(work(k)), k + 1, work, p);
    }
}

proof fn lemma_steady(d: nat, j: nat, k: nat, work: spec_fn(nat) -> nat)
    requires
        forall|i: nat| #[trigger] work(i) <= 1000,
        j <= d,
    ensures
        paced_end(d, j * 1000, k, work) == d * 1000,
        paced_ticks(d, j * 1000, k, work) == d - j,
    decreases d - j,
{
    assert(j * 1000 < d * 1000 <==> j < d) by (nonlinear_arith);
    if j < d {
        assert(j * 1000 + 1000 == (j + 1) * 1000) by (nonlinear_arith);
        lemma_steady(d, j + 1, k + 1, work);
    } else {
        assert(j * 1000 == d * 1000);
    }
}

proof fn lemma_ticks_bounded(d: nat, j: nat, now: nat, k: nat, work: spec_fn(nat) -> nat)
    requires
        j <= d,
        now >= j * 1000,
    ensures
        paced_ticks(d, now, k, work) <= d - j,
    decreases remaining_ms(d, now),
{
    if owes_tick(d, now) {
        assert(j < d) by (nonlinear_arith)
            requires
                now >= j * 1000,
                now < d * 1000,
        ;
        assert(now + tick_span(work(k)) >= (j + 1) * 1000) by (nonlinear_arith)
            requires
                now >= j * 1000,
                tick_span(work(k)) >= 1000,
        ;
        lemma_ticks_bounded(d, j + 1, now + tick_span(work(k)), k + 1, work);
    }
}

/// A paced run of `d` seconds whose ticks each take at most `p`
/// milliseconds of wall clock (`p` at least one tick period) ends no sooner
/// than `d` seconds and less than `p` milliseconds after them.
pub proof fn lemma_run_within_one_tick(d: nat, work: spec_fn(nat) -> nat, p: nat)
    requires
        p >= 1000,
        forall|i: nat| #[trigger] work(i) <= p,
    ensures
        d * 1000 <= paced_end(d, 0, 0, work) < d * 1000 + p,
        paced_ticks(d, 0, 0, work) <= d,
{
    lemma_end_bounds(d, 0, 0, work, p);
    lemma_ticks_bounded(d, 0, 0, 0, work);
}

/// When no tick overruns, a run of `d` seconds executes exactly `d` ticks
/// and ends exactly `d` seconds after it started.
pub proof fn lemma_steady_run(d: nat, work: spec_fn(nat) -> nat)
    requires
        forall|i: nat| #[trigger] work(i) <= 1000,
    ensures
        paced_end(d, 0, 0, work) == d * 1000,
        paced_ticks(d, 0, 0, work) == d,
{
    lemma_steady(d, 0, 0, work);
}

/// A run of zero seconds executes no tick and ends where it starts.
pub proof fn lemma_zero_duration_runs_nothing(now: nat, k: nat, work: spec_fn(nat) -> nat)
    ensures
        paced_ticks(0, now, k, work) == 0,
        paced_end(0, now, k, work) == now,
{
}

/// When every tick's work takes at least a second, no tick sleeps and every
/// tick overruns, and the run still ends: after at most `d` ticks, once `d`
/// seconds have passed.
pub proof fn lemma_overrunning_run(d: nat, work: spec_fn(nat) -> nat)
    requires
        forall|i: nat| #[trigger] work(i) >= 1000,
    ensures
        forall|i: nat| i < paced_ticks(d, 0, 0, work) ==> sleep_after(#[trigger] work(i)) == 0 && overran(work(i)),
        paced_ticks(d, 0, 0, work) <= d,
        d * 1000 <= paced_end(d, 0, 0, work),
{
    lemma_ticks_bounded(d, 0, 0, 0, work);
    lemma_end_bounds_below(d, 0, 0, work);
}

proof fn lemma_end_bounds_below(d: nat, now: nat, k: nat, work: spec_fn(nat) -> nat)
    ensures
        d * 1000 <= paced_end(d, now, k, work),
    decreases remaining_ms(d, now),
{
    if owes_tick(d, now) {
        lemma_end_bounds_below(d, now + tick_span(work(k)), k + 1, work);
    }
}

} // verus!
