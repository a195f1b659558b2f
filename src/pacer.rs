//! The pacer decides, each time it wakes, whether to emit the next tick and
//! until when to sleep afterwards.
//!
//! Times are nanoseconds from the start of the test. Tick `i` is scheduled
//! at `i * 10^9 / qps`; the pacer sleeps to that absolute instant rather than
//! for a relative span, so scheduling jitter does not accumulate. A wake-up
//! after the deadline (`duration_secs` seconds) ends the run.

use vstd::prelude::*;

verus! {

pub const NANOS_PER_SEC: u64 = 1_000_000_000;

/// Instant (nanoseconds from the start) at which tick `i` is scheduled.
pub open spec fn scheduled_at(i: int, qps: int) -> int {
    i * NANOS_PER_SEC / qps
}

/// What the pacer does on a wake-up.
#[derive(Clone, Copy, Debug, PartialEq, Eq)]
pub enum PacerAction {
    /// Emit one tick, then sleep until the absolute instant `wake_at`.
    Emit { wake_at: u64 },
    /// The deadline has passed: close the tick channel.
    Stop,
}

/// Drift-free pacing state.
#[derive(Clone, Copy, Debug, PartialEq, Eq)]
pub struct Pacer {
    pub qps: u64,
    pub duration_secs: u64,
    /// Index of the next tick to emit.
    pub next_tick: u64,
}

impl Pacer {
    /// The test deadline, in nanoseconds from the start.
    pub open spec fn deadline_spec(&self) -> int {
        self.duration_secs * NANOS_PER_SEC
    }

    /// Whether a wake-up at `now` emits a tick: the deadline check is strict.
    pub open spec fn emits_at(&self, now: int) -> bool {
        now <= self.deadline_spec()
    }

    pub open spec fn wf(&self) -> bool {
        &&& 1 <= self.qps
        &&& (self.duration_secs + 1) * NANOS_PER_SEC <= u64::MAX
        &&& self.qps * (self.duration_secs + 1) < u64::MAX
        &&& self.next_tick <= self.qps * (self.duration_secs + 1)
    }

    /// A pacer for `qps` ticks per second over `duration_secs` seconds, whose
    /// first tick is due at the start.
    pub fn new(qps: u64, duration_secs: u64) -> (r: Pacer)
        requires
            1 <= qps,
            (duration_secs + 1) * NANOS_PER_SEC <= u64::MAX,
            qps * (duration_secs + 1) < u64::MAX,
        ensures
            r.wf(),
            r.qps == qps,
            r.duration_secs == duration_secs,
            r.next_tick == 0,
    {
        Pacer { qps, duration_secs, next_tick: 0 }
    }

    /// The test deadline, in nanoseconds from the start.
    pub fn deadline(&self) -> (r: u64)
        requires
            self.wf(),
        ensures
            r == self.deadline_spec(),
    {
        self.duration_secs * NANOS_PER_SEC
    }

    /// The instant, in nanoseconds from the start, at which the next tick is
    /// due.
    pub fn next_due(&self) -> (r: u64)
        requires
            self.wf(),
        ensures
            r == scheduled_at(self.next_tick as int, self.qps as int),
    {
        proof {
            lemma_schedule_within_u64(self.next_tick as int, self.qps as int, self.duration_secs as int);
        }
        let due: u128 = (self.next_tick as u128) * (NANOS_PER_SEC as u128) / (self.qps as u128);
        due as u64
    }

    /// Decides what to do on waking at `now`, which is no earlier than the
    /// instant the next tick was scheduled for. Before the deadline (or at
    /// it) the tick is emitted and the pacer sleeps until the next tick's
    /// instant, which may already have passed when the run is behind; after
    /// the deadline it stops.
    pub fn on_wake(&mut self, now: u64) -> (r: PacerAction)
        requires
            old(self).wf(),
            now >= scheduled_at(old(self).next_tick as int, old(self).qps as int),
        ensures
            final(self).wf(),
            final(self).qps == old(self).qps,
            final(self).duration_secs == old(self).duration_secs,
            (r is Emit) == old(self).emits_at(now as int),
            r is Stop ==> final(self).next_tick == old(self).next_tick,
            r is Emit ==> {
                &&& final(self).next_tick == old(self).next_tick + 1
                &&& r->wake_at == scheduled_at(old(self).next_tick + 1, old(self).qps as int)
            },
    {
        let deadline = self.deadline();
        if now > deadline {
            return PacerAction::Stop;
        }
        let i = self.next_tick;
        proof {
            lemma_emitted_tick_bounded(i as int, self.qps as int, self.duration_secs as int);
            lemma_schedule_within_u64(i as int + 1, self.qps as int, self.duration_secs as int);
        }
        let wake_at: u128 = (i as u128 + 1) * (NANOS_PER_SEC as u128) / (self.qps as u128);
        self.next_tick = i + 1;
        PacerAction::Emit { wake_at: wake_at as u64 }
    }
}

/// A tick scheduled no later than the deadline has an index below
/// `qps * (duration + 1)`.
proof fn lemma_emitted_tick_bounded(i: int, qps: int, duration: int)
    requires
        0 <= i,
        1 <= qps,
        0 <= duration,
        scheduled_at(i, qps) <= duration * NANOS_PER_SEC,
    ensures
        i < qps * (duration + 1),
{
    let n = NANOS_PER_SEC as int;
    let s = i * n / qps;
    assert(i * n < (s + 1) * qps) by (nonlinear_arith)
        requires
            s == i * n / qps,
            qps >= 1,
    ;
    assert(i < qps * (duration + 1)) by (nonlinear_arith)
        requires
            i * n < (s + 1) * qps,
            s <= duration * n,
            n == 1_000_000_000,
            qps >= 1,
            i >= 0,
            duration >= 0,
    ;
}

/// The instant of a tick with index up to `qps * (duration + 1)` fits in u64.
proof fn lemma_schedule_within_u64(i: int, qps: int, duration: int)
    requires
        0 <= i <= qps * (duration + 1),
        1 <= qps,
        0 <= duration,
        (duration + 1) * NANOS_PER_SEC <= u64::MAX,
    ensures
        0 <= scheduled_at(i, qps) <= (duration + 1) * NANOS_PER_SEC,
{
    let n = NANOS_PER_SEC as int;
    assert(i * n <= (duration + 1) * n * qps) by (nonlinear_arith)
        requires
            0 <= i <= qps * (duration + 1),
            n > 0,
    ;
    assert(i * n / qps <= (duration + 1) * n) by (nonlinear_arith)
        requires
            i * n <= (duration + 1) * n * qps,
            qps >= 1,
            i >= 0,
            n > 0,
    ;
    assert(i * n / qps >= 0) by (nonlinear_arith)
        requires
            i >= 0,
            qps >= 1,
            n > 0,
    ;
}

/// Tick `i` is scheduled strictly before the deadline exactly when `i` is
/// below `qps * duration`: a test of `duration` seconds has `qps * duration`
/// ticks in its window.
pub proof fn lemma_tick_in_window(i: int, qps: int, duration: int)
    requires
        0 <= i,
        1 <= qps,
        0 <= duration,
    ensures
        scheduled_at(i, qps) < duration * NANOS_PER_SEC <==> i < qps * duration,
{
    let n = NANOS_PER_SEC as int;
    let s = i * n / qps;
    assert(s * qps <= i * n < (s + 1) * qps) by (nonlinear_arith)
        requires
            s == i * n / qps,
            qps >= 1,
    ;
    if s < duration * n {
        assert(i < qps * duration) by (nonlinear_arith)
            requires
                i * n < (s + 1) * qps,
                s + 1 <= duration * n,
                n == 1_000_000_000,
                qps >= 1,
        ;
    }
    if i < qps * duration {
        assert(s < duration * n) by (nonlinear_arith)
            requires
                s * qps <= i * n,
                i + 1 <= qps * duration,
                n == 1_000_000_000,
                qps >= 1,
        ;
    }
}

/// When each wake-up comes strictly after the instant it was scheduled for,
/// as a timer's does, only ticks inside the window are emitted: the pacer
/// emits at most `qps * duration_secs` ticks.
pub proof fn lemma_late_wake_emits_within_window(p: Pacer, now: int)
    requires
        p.wf(),
        now > scheduled_at(p.next_tick as int, p.qps as int),
        p.emits_at(now),
    ensures
        p.next_tick < p.qps * p.duration_secs,
{
    lemma_tick_in_window(p.next_tick as int, p.qps as int, p.duration_secs as int);
}

/// A tick scheduled exactly at the deadline is not emitted once its wake-up
/// comes after its scheduled instant; no tick at or past the deadline is.
pub proof fn lemma_boundary_tick_not_emitted(p: Pacer, now: int)
    requires
        p.wf(),
        scheduled_at(p.next_tick as int, p.qps as int) >= p.deadline_spec(),
        now > scheduled_at(p.next_tick as int, p.qps as int),
    ensures
        !p.emits_at(now),
{
}

} // verus!
