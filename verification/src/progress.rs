//! The progress-reporting protocol.
//!
//! A reporter lives through `init(total)`, then any number of `tick(current)`
//! calls, then one `finish()`. `ProgressState` is the verified heart shared
//! by both reporter variants: it enforces that order, turns consecutive
//! `current` values into the increments a visual bar consumes (clamped at
//! zero when `current` regresses, never underflowing), and accumulates the
//! increments handed out. The quiet variant discards the increments; the
//! visual variant draws them — both are the caller's business, not modelled
//! here.

use vstd::prelude::*;

verus! {

/// Where a reporter stands in its lifecycle.
#[derive(Clone, Copy, Debug, PartialEq, Eq, Structural)]
pub enum Phase {
    /// Created; `init` has not run yet.
    Idle,
    /// `init` has run; `tick` and `finish` are allowed.
    Running,
    /// `finish` has run; nothing more is allowed.
    Finished,
}

/// The increment a bar advances by when the reported position moves from
/// `prev` to `current`: their difference, clamped at zero when `current`
/// regresses.
pub open spec fn tick_delta(prev: u64, current: u64) -> u64 {
    if current >= prev {
        (current - prev) as u64
    } else {
        0
    }
}

/// The sum of the increments handed out for the reported positions `ticks`,
/// when the position before the first of them was `prev`.
pub open spec fn delta_sum_from(prev: u64, ticks: Seq<u64>) -> int
    decreases ticks.len(),
{
    if ticks.len() == 0 {
        0
    } else {
        tick_delta(prev, ticks[0]) + delta_sum_from(ticks[0], ticks.drop_first())
    }
}

/// The sum of the increments handed out for the reported positions `ticks`,
/// starting from position zero, as a fresh reporter does.
pub open spec fn delta_sum_of(ticks: Seq<u64>) -> int {
    delta_sum_from(0, ticks)
}

/// The increments telescope: over any non-decreasing run of reported
/// positions, the increments handed out sum to exactly the distance from the
/// starting position to the final one. In particular a fresh reporter that
/// is ticked with non-decreasing positions hands out increments summing to
/// the last position — a visual bar ends up exactly at `final_current`.
pub proof fn lemma_delta_sum(prev: u64, ticks: Seq<u64>)
    requires
        ticks.len() > 0,
        prev <= ticks[0],
        forall|i: int| 0 <= i < ticks.len() - 1 ==> #[trigger] ticks[i] <= ticks[i + 1],
    ensures
        delta_sum_from(prev, ticks) == ticks.last() - prev,
    decreases ticks.len(),
{
    if ticks.len() == 1 {
        assert(delta_sum_from(ticks[0], ticks.drop_first()) == 0);
    } else {
        let rest = ticks.drop_first();
        assert(ticks[0] <= ticks[1]);
        assert(forall|i: int|
            0 <= i < rest.len() - 1 ==> #[trigger] rest[i] <= rest[i + 1]) by {
            assert(forall|i: int|
                0 <= i < rest.len() - 1 ==> #[trigger] rest[i] == ticks[i + 1] && rest[i + 1]
                    == ticks[i + 2]);
        }
        lemma_delta_sum(ticks[0], rest);
        assert(rest.last() == ticks.last());
    }
}

/// The reporter invariant: a fresh reporter ticked with any non-decreasing
/// run of positions hands out increments that sum to exactly the final
/// position reported — and to zero when nothing was ever reported.
pub proof fn lemma_deltas_sum_to_final(ticks: Seq<u64>)
    requires
        forall|i: int| 0 <= i < ticks.len() - 1 ==> #[trigger] ticks[i] <= ticks[i + 1],
    ensures
        delta_sum_of(ticks) == if ticks.len() == 0 {
            0int
        } else {
            ticks.last() as int
        },
{
    if ticks.len() > 0 {
        lemma_delta_sum(0, ticks);
    }
}

/// The state one file copy's reporter owns: the announced total, the last
/// reported position, and the sum of the increments handed out so far.
pub struct ProgressState {
    /// Lifecycle position: `tick` is allowed only between `init` and
    /// `finish`, and `finish` only once.
    pub phase: Phase,
    /// The total announced by `init`.
    pub total: u64,
    /// The position reported by the latest `tick`; zero right after `init`.
    pub last: u64,
    /// The sum of all increments handed out since `init`.
    pub delta_sum: u64,
}

impl ProgressState {
    /// A fresh reporter state, not yet initialised.
    pub fn new() -> (s: Self)
        ensures
            s.phase is Idle,
            s.total == 0,
            s.last == 0,
            s.delta_sum == 0,
    {
        ProgressState { phase: Phase::Idle, total: 0, last: 0, delta_sum: 0 }
    }

    /// Begins the lifecycle, announcing the total amount of work. Runs once,
    /// before any `tick`.
    pub fn init(&mut self, total: u64)
        requires
            old(self).phase is Idle,
        ensures
            final(self).phase is Running,
            final(self).total == total,
            final(self).last == 0,
            final(self).delta_sum == 0,
    {
        self.phase = Phase::Running;
        self.total = total;
        self.last = 0;
        self.delta_sum = 0;
    }

    /// Records that `current` units are now delivered and returns the
    /// increment a visual bar should advance by: the distance from the last
    /// reported position, clamped at zero if `current` regressed.
    pub fn tick(&mut self, current: u64) -> (delta: u64)
        requires
            old(self).phase is Running,
            old(self).delta_sum + tick_delta(old(self).last, current) <= u64::MAX,
        ensures
            delta == tick_delta(old(self).last, current),
            final(self).phase is Running,
            final(self).total == old(self).total,
            final(self).last == current,
            final(self).delta_sum == old(self).delta_sum + delta,
    {
        let delta: u64 = if current >= self.last {
            current - self.last
        } else {
            0
        };
        self.last = current;
        self.delta_sum = self.delta_sum + delta;
        delta
    }

    /// Ends the lifecycle. Runs exactly once, after the last `tick` and only
    /// when the copy succeeded; an aborted copy leaves the state unfinished.
    pub fn finish(&mut self)
        requires
            old(self).phase is Running,
        ensures
            final(self).phase is Finished,
            final(self).total == old(self).total,
            final(self).last == old(self).last,
            final(self).delta_sum == old(self).delta_sum,
    {
        self.phase = Phase::Finished;
    }
}

/// The percentage `current / total`, in hundredths of a percent (the two
/// decimal places a bar displays), clamped at one hundred percent when
/// `current` overshoots the announced total.
pub open spec fn percent_hundredths_of(current: u64, total: u64) -> int
    recommends
        total > 0,
{
    if current <= total {
        (current * 10000) / (total as int)
    } else {
        10000
    }
}

/// The displayed percentage in hundredths of a percent, or `None` when the
/// total is zero: the percentage is undefined there and the caller renders a
/// placeholder instead of dividing by zero.
pub fn percent_hundredths(current: u64, total: u64) -> (r: Option<u64>)
    ensures
        r is None <==> total == 0,
        total > 0 ==> r == Some(percent_hundredths_of(current, total) as u64),
{
    if total == 0 {
        return None;
    }
    if current > total {
        return Some(10000);
    }
    let scaled: u128 = (current as u128) * 10000;
    let pct: u128 = scaled / (total as u128);
    proof {
        let c = current as int;
        let t = total as int;
        assert(c * 10000 <= t * 10000) by (nonlinear_arith)
            requires
                c <= t,
        ;
        assert((c * 10000) / t <= 10000) by (nonlinear_arith)
            requires
                c * 10000 <= t * 10000,
                t > 0,
        ;
    }
    Some(pct as u64)
}

} // verus!
