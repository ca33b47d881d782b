//! The concurrency controller: a pure decision procedure that turns the mean
//! measured rate of a full sample window into one of three messages -- leave
//! the pool alone, grow it, or declare the system under test rate-limited.

use vstd::prelude::*;

verus! {

/// Per-decision cap on how far concurrency may move in one step.
pub const MAX_CHANGE: usize = 100;

/// One point of the search history: the pool size that was active and the
/// mean rate (milli-TPS) measured at it.
#[derive(Clone, Copy, Debug, PartialEq, Eq, Structural)]
pub struct Measurement {
    pub concurrency: usize,
    pub tps_millis: u64,
}

/// What the controller asks of the sampler after one decision cycle.
#[derive(Clone, Copy, Debug, PartialEq, Eq, Structural)]
pub enum CCOutcome {
    /// Measured rate is within tolerance of the goal; change nothing.
    Stable,
    /// Grow the worker pool to this size.
    AlterConcurrency(usize),
    /// The system under test cannot reach the goal: cap the rate at the
    /// first value (whole TPS) and pull the pool back to the second.
    TpsLimited(u32, usize),
}

/// The mathematical content of a `ConcurrencyController`.
pub ghost struct CCView {
    pub goal_tps: u32,
    pub concurrency: usize,
    pub starting_concurrency: usize,
    pub measurements: Seq<Measurement>,
    pub tps_limited: bool,
}

/// The goal rate in milli-TPS.
pub open spec fn spec_goal_millis(goal_tps: u32) -> int {
    goal_tps * 1000
}

/// The stability test. The relative error `(goal - measured) / goal` is below
/// `0.05` exactly when `20 * measured > 19 * goal`; an overshoot (measured at
/// or above goal) is stable as well, since the rate limiter handles it.
pub open spec fn spec_stable(goal_tps: u32, mean_tps_millis: u64) -> bool {
    20 * mean_tps_millis > 19 * spec_goal_millis(goal_tps)
}

pub open spec fn spec_ceil_div(a: int, b: int) -> int {
    (a + b - 1) / b
}

/// The concurrency the proportional step proposes: scale the current pool by
/// `goal / measured`, round up, and clamp the step to `MAX_CHANGE`. A mean of
/// zero scales without bound, so it takes the clamped step directly.
pub open spec fn spec_proposed_concurrency(
    concurrency: usize,
    goal_tps: u32,
    mean_tps_millis: u64,
) -> int {
    if mean_tps_millis == 0 {
        concurrency + MAX_CHANGE
    } else {
        let raw = spec_ceil_div(concurrency * spec_goal_millis(goal_tps), mean_tps_millis as int);
        if raw > concurrency + MAX_CHANGE {
            concurrency + MAX_CHANGE
        } else {
            raw
        }
    }
}

/// Whether the slope between two history points is below one transaction per
/// second per worker. Equal pool sizes give an undefined (0/0) slope, which
/// is treated as zero, hence below one.
pub open spec fn spec_slope_below_one(m0: Measurement, m1: Measurement) -> bool {
    let dt = m1.tps_millis - m0.tps_millis;
    let dc = m1.concurrency - m0.concurrency;
    if dc == 0 {
        true
    } else if dc > 0 {
        dt < 1000 * dc
    } else {
        dt > 1000 * dc
    }
}

/// The plateau test: with more than two slopes on record, the last two both
/// below one TPS per worker indicate the system under test is saturated.
pub open spec fn spec_underpowered(ms: Seq<Measurement>) -> bool {
    &&& ms.len() > 3
    &&& spec_slope_below_one(ms[ms.len() - 3], ms[ms.len() - 2])
    &&& spec_slope_below_one(ms[ms.len() - 2], ms[ms.len() - 1])
}

/// The operating point the limiter is pinned to: the third-most-recent
/// measurement, the foot of the plateau already in progress.
pub open spec fn spec_plateau_foot(ms: Seq<Measurement>) -> Measurement {
    ms[ms.len() - 3]
}

/// The rate cap derived from a plateau-foot measurement: its rate in whole
/// TPS, rounded down, saturating at `u32::MAX`.
pub open spec fn spec_limit_tps(m: Measurement) -> int {
    let t = m.tps_millis / 1000;
    if t > u32::MAX {
        u32::MAX as int
    } else {
        t as int
    }
}

/// The 0.75 pull-back applied to the plateau-foot concurrency, kept at one
/// worker or more: re-entering at the saturating size itself would thrash.
pub open spec fn spec_pull_back(concurrency: usize) -> int {
    let p = concurrency * 3 / 4;
    if p == 0 {
        1
    } else {
        p
    }
}

/// The detection actually latches only when it derives a positive rate cap;
/// a zero cap is an anomaly (logged by the caller), not a decision.
pub open spec fn spec_detects_limit(ms: Seq<Measurement>) -> bool {
    spec_underpowered(ms) && spec_limit_tps(spec_plateau_foot(ms)) >= 1
}

pub open spec fn cc_wf(v: CCView) -> bool {
    &&& 1 <= v.goal_tps
    &&& 1 <= v.concurrency
    &&& 1 <= v.starting_concurrency
}

/// The history after one non-stable decision: the current operating point is
/// appended.
pub open spec fn spec_history_after(v: CCView, mean_tps_millis: u64) -> Seq<Measurement> {
    v.measurements.push(Measurement { concurrency: v.concurrency, tps_millis: mean_tps_millis })
}

/// The message one decision cycle returns, as a function of the controller
/// state and the mean measured rate.
pub open spec fn spec_outcome(v: CCView, mean_tps_millis: u64) -> CCOutcome {
    if spec_stable(v.goal_tps, mean_tps_millis) {
        CCOutcome::Stable
    } else {
        let ms = spec_history_after(v, mean_tps_millis);
        if spec_detects_limit(ms) {
            CCOutcome::TpsLimited(
                spec_limit_tps(spec_plateau_foot(ms)) as u32,
                spec_pull_back(spec_plateau_foot(ms).concurrency) as usize,
            )
        } else if spec_proposed_concurrency(v.concurrency, v.goal_tps, mean_tps_millis) == 0 {
            CCOutcome::AlterConcurrency(v.starting_concurrency)
        } else {
            CCOutcome::AlterConcurrency(
                spec_proposed_concurrency(v.concurrency, v.goal_tps, mean_tps_millis) as usize,
            )
        }
    }
}

/// The controller state after one decision cycle.
pub open spec fn spec_step(v: CCView, mean_tps_millis: u64) -> CCView {
    if spec_stable(v.goal_tps, mean_tps_millis) {
        v
    } else {
        let ms = spec_history_after(v, mean_tps_millis);
        if spec_detects_limit(ms) {
            CCView {
                goal_tps: v.goal_tps,
                concurrency: spec_pull_back(spec_plateau_foot(ms).concurrency) as usize,
                starting_concurrency: v.starting_concurrency,
                measurements: ms,
                tps_limited: true,
            }
        } else if spec_proposed_concurrency(v.concurrency, v.goal_tps, mean_tps_millis) == 0 {
            CCView {
                goal_tps: v.goal_tps,
                concurrency: v.starting_concurrency,
                starting_concurrency: v.starting_concurrency,
                measurements: ms,
                tps_limited: v.tps_limited,
            }
        } else {
            CCView {
                goal_tps: v.goal_tps,
                concurrency: spec_proposed_concurrency(
                    v.concurrency,
                    v.goal_tps,
                    mean_tps_millis,
                ) as usize,
                starting_concurrency: v.starting_concurrency,
                measurements: ms,
                tps_limited: v.tps_limited,
            }
        }
    }
}

/// The controller: goal rate, search history, current pool size, and the
/// latch that marks the system under test as rate-limited.
pub struct ConcurrencyController {
    pub goal_tps: u32,
    pub concurrency: usize,
    pub starting_concurrency: usize,
    pub measurements: Vec<Measurement>,
    pub tps_limited: bool,
}

impl View for ConcurrencyController {
    type V = CCView;

    open spec fn view(&self) -> CCView {
        CCView {
            goal_tps: self.goal_tps,
            concurrency: self.concurrency,
            starting_concurrency: self.starting_concurrency,
            measurements: self.measurements@,
            tps_limited: self.tps_limited,
        }
    }
}

/// Whether the slope between two history points is below one TPS per worker.
pub fn slope_below_one(m0: Measurement, m1: Measurement) -> (r: bool)
    ensures
        r == spec_slope_below_one(m0, m1),
{
    if m1.concurrency == m0.concurrency {
        true
    } else if m1.concurrency > m0.concurrency {
        let dc: u128 = (m1.concurrency - m0.concurrency) as u128;
        if m1.tps_millis <= m0.tps_millis {
            true
        } else {
            ((m1.tps_millis - m0.tps_millis) as u128) < 1000 * dc
        }
    } else {
        let dc: u128 = (m0.concurrency - m1.concurrency) as u128;
        if m1.tps_millis >= m0.tps_millis {
            true
        } else {
            ((m0.tps_millis - m1.tps_millis) as u128) < 1000 * dc
        }
    }
}

impl ConcurrencyController {
    pub open spec fn wf(self) -> bool {
        cc_wf(self@)
    }

    pub fn new(goal_tps: u32, starting_concurrency: usize) -> (r: Self)
        requires
            1 <= goal_tps,
            1 <= starting_concurrency,
        ensures
            r.wf(),
            r@ == (CCView {
                goal_tps,
                concurrency: starting_concurrency,
                starting_concurrency,
                measurements: Seq::empty(),
                tps_limited: false,
            }),
    {
        let r = ConcurrencyController {
            goal_tps,
            concurrency: starting_concurrency,
            starting_concurrency,
            measurements: Vec::new(),
            tps_limited: false,
        };
        proof {
            assert(r@.measurements =~= Seq::<Measurement>::empty());
        }
        r
    }

    pub fn concurrency(&self) -> (r: usize)
        ensures
            r == self@.concurrency,
    {
        self.concurrency
    }

    pub fn tps_limited(&self) -> (r: bool)
        ensures
            r == self@.tps_limited,
    {
        self.tps_limited
    }

    /// Moves the setpoint. The latch is the caller's concern: the sampler
    /// wrapping this controller refuses increases once the limit is latched.
    pub fn set_goal_tps(&mut self, goal_tps: u32)
        requires
            old(self).wf(),
            1 <= goal_tps,
        ensures
            final(self).wf(),
            final(self)@ == (CCView { goal_tps, ..old(self)@ }),
    {
        self.goal_tps = goal_tps;
    }

    /// Scans the tail of the history for the saturation plateau; on success
    /// returns the derived rate cap (whole TPS) and the plateau-foot pool
    /// size. A plateau whose derived cap is zero is an anomaly and reported
    /// as no detection.
    pub fn detect_underpowered(&self) -> (r: Option<(u32, usize)>)
        ensures
            r is Some <==> spec_detects_limit(self@.measurements),
            r is Some ==> r == Some(
                (
                    spec_limit_tps(spec_plateau_foot(self@.measurements)) as u32,
                    spec_plateau_foot(self@.measurements).concurrency,
                ),
            ),
    {
        let n = self.measurements.len();
        if n > 3 {
            let low_1 = slope_below_one(self.measurements[n - 3], self.measurements[n - 2]);
            let low_2 = slope_below_one(self.measurements[n - 2], self.measurements[n - 1]);
            if low_1 && low_2 {
                let foot = self.measurements[n - 3];
                let t: u64 = foot.tps_millis / 1000;
                let limit: u32 = if t > u32::MAX as u64 {
                    u32::MAX
                } else {
                    t as u32
                };
                if limit >= 1 {
                    return Some((limit, foot.concurrency));
                }
            }
        }
        None
    }

    /// One decision cycle over the mean rate of a full sample window, exactly
    /// `spec_outcome` / `spec_step`: stable within tolerance; otherwise record
    /// the operating point, declare a rate limit on a detected plateau, and
    /// grow the pool proportionally (step clamped to `MAX_CHANGE`) otherwise.
    pub fn analyze(&mut self, mean_tps_millis: u64) -> (r: CCOutcome)
        requires
            old(self).wf(),
            old(self)@.concurrency <= usize::MAX - MAX_CHANGE,
        ensures
            final(self).wf(),
            r == spec_outcome(old(self)@, mean_tps_millis),
            final(self)@ == spec_step(old(self)@, mean_tps_millis),
    {
        let goal_millis: u64 = (self.goal_tps as u64) * 1000;
        let is_stable: bool = 20 * (mean_tps_millis as u128) > 19 * (goal_millis as u128);
        if is_stable {
            return CCOutcome::Stable;
        }
        let proposed: usize = if mean_tps_millis == 0 {
            self.concurrency + MAX_CHANGE
        } else {
            let mean_128 = mean_tps_millis as u128;
            proof {
                assert((self.concurrency as int) * (goal_millis as int) + (mean_tps_millis as int)
                    <= (usize::MAX as int) * (u32::MAX as int * 1000) + (u64::MAX as int))
                    by (nonlinear_arith)
                    requires
                        0 <= self.concurrency <= usize::MAX,
                        0 <= goal_millis <= u32::MAX as int * 1000,
                        0 <= mean_tps_millis <= u64::MAX,
                ;
            }
            let num: u128 = (self.concurrency as u128) * (goal_millis as u128) + (mean_128 - 1);
            let raw: u128 = num / mean_128;
            let cap: u128 = (self.concurrency as u128) + (MAX_CHANGE as u128);
            if raw > cap {
                self.concurrency + MAX_CHANGE
            } else {
                raw as usize
            }
        };
        self.measurements.push(
            Measurement { concurrency: self.concurrency, tps_millis: mean_tps_millis },
        );
        if let Some((limit, foot_concurrency)) = self.detect_underpowered() {
            self.tps_limited = true;
            proof {
                assert((foot_concurrency as int) * 3 / 4 <= foot_concurrency as int)
                    by (nonlinear_arith)
                    requires
                        foot_concurrency >= 0,
                ;
            }
            let pulled_128: u128 = (foot_concurrency as u128) * 3 / 4;
            let pulled: usize = if pulled_128 == 0 {
                1
            } else {
                pulled_128 as usize
            };
            self.concurrency = pulled;
            CCOutcome::TpsLimited(limit, pulled)
        } else if proposed == 0 {
            self.concurrency = self.starting_concurrency;
            CCOutcome::AlterConcurrency(self.starting_concurrency)
        } else {
            self.concurrency = proposed;
            CCOutcome::AlterConcurrency(proposed)
        }
    }
}

/// Under well-formed state, the proposal is always at least one worker, so
/// the degenerate zero-proposal fallback never fires.
pub proof fn lemma_proposed_positive(v: CCView, mean_tps_millis: u64)
    requires
        cc_wf(v),
    ensures
        spec_proposed_concurrency(v.concurrency, v.goal_tps, mean_tps_millis) >= 1,
{
    if mean_tps_millis != 0 {
        let g = spec_goal_millis(v.goal_tps);
        let m = mean_tps_millis as int;
        let x = v.concurrency * g;
        assert(x >= 1 * 1000) by (nonlinear_arith)
            requires
                v.concurrency >= 1,
                g >= 1000,
                x == v.concurrency * g,
        ;
        assert((x + m - 1) / m >= 1) by (nonlinear_arith)
            requires
                x >= 1,
                m >= 1,
        ;
    }
}

/// When the measured mean falls short of the goal by five percent or more,
/// the proportional step strictly grows the pool.
pub proof fn lemma_proposed_grows(v: CCView, mean_tps_millis: u64)
    requires
        cc_wf(v),
        !spec_stable(v.goal_tps, mean_tps_millis),
    ensures
        spec_proposed_concurrency(v.concurrency, v.goal_tps, mean_tps_millis) > v.concurrency,
{
    let c = v.concurrency as int;
    let g = spec_goal_millis(v.goal_tps);
    let m = mean_tps_millis as int;
    if mean_tps_millis != 0 {
        // not stable: 20 m <= 19 g, and g >= 1000, so m < g
        assert(m < g) by (nonlinear_arith)
            requires
                20 * m <= 19 * g,
                g >= 1000,
        ;
        let x = c * g;
        assert(x >= c * m + c) by (nonlinear_arith)
            requires
                g >= m + 1,
                c >= 1,
                x == c * g,
        ;
        assert((x + m - 1) / m >= c + 1) by (nonlinear_arith)
            requires
                x >= c * m + 1,
                m >= 1,
        ;
    }
}

/// P-invariant: a measured rate within five percent of the goal (or above
/// it) is reported `Stable`, and the controller -- its history included --
/// is left exactly as it was. A stable stream therefore never moves the
/// concurrency.
pub proof fn lemma_stable_stream_is_noop(v: CCView, mean_tps_millis: u64)
    requires
        cc_wf(v),
        spec_stable(v.goal_tps, mean_tps_millis),
    ensures
        spec_outcome(v, mean_tps_millis) == CCOutcome::Stable,
        spec_step(v, mean_tps_millis) == v,
{
}

/// P-invariant: outside the rate-limited transition the search never moves
/// down -- any `AlterConcurrency` message carries a pool size strictly above
/// the current one.
pub proof fn lemma_search_never_decreases(v: CCView, mean_tps_millis: u64, n: usize)
    requires
        cc_wf(v),
        v.concurrency <= usize::MAX - MAX_CHANGE,
        spec_outcome(v, mean_tps_millis) == CCOutcome::AlterConcurrency(n),
    ensures
        n > v.concurrency,
{
    lemma_proposed_positive(v, mean_tps_millis);
    lemma_proposed_grows(v, mean_tps_millis);
}

/// P-invariant: each decision moves the concurrency by at most `MAX_CHANGE`,
/// the rate-limited transition (which applies the 0.75 pull-back instead)
/// excepted.
pub proof fn lemma_step_bounded(v: CCView, mean_tps_millis: u64, n: usize)
    requires
        cc_wf(v),
        v.concurrency <= usize::MAX - MAX_CHANGE,
        spec_outcome(v, mean_tps_millis) == CCOutcome::AlterConcurrency(n),
    ensures
        v.concurrency < n <= v.concurrency + MAX_CHANGE,
{
    lemma_proposed_positive(v, mean_tps_millis);
    lemma_proposed_grows(v, mean_tps_millis);
}

} // verus!
