//! The sampler state machines. `TpsSampler` holds the per-run knobs the
//! asynchronous engine acts on: the rate limit (with a generation count, one
//! per limiter replacement), the adaptive tick interval, and the worker pool
//! modelled as its cooperative ids. `ConcurrentSampler` wires a sampler, the
//! sample window and the concurrency controller into one sampling cycle.

use vstd::prelude::*;
use crate::controller::{
    spec_outcome, spec_step, CCOutcome, CCView, ConcurrencyController, MAX_CHANGE,
};
use crate::data::{TpsData, MAX_SAMPLE_EVENTS};
use crate::window::{
    spec_cleared_window, spec_sum_tps_millis, spec_window_push, SampleSet, WindowView,
    SAMPLE_WINDOW_SIZE,
};

verus! {

/// The tick interval a sampler starts with.
pub const STARTING_INTERVAL_MILLIS: u64 = 200;

/// A sample with more events than this halves the tick interval.
pub const INTERVAL_HALVING_THRESHOLD: u64 = 2000;

/// The floor under the adaptive interval: halving never goes below this.
pub const MIN_INTERVAL_MILLIS: u64 = 10;

/// The mathematical content of a `TpsSampler`.
pub ghost struct TSView {
    pub tps_limit: u32,
    pub limiter_generation: u64,
    pub interval_millis: u64,
    pub concurrency: usize,
    pub worker_ids: Seq<usize>,
}

/// The worker pool as its cooperative ids: always exactly `0, 1, .., n-1`.
pub open spec fn spec_identity_ids(n: usize) -> Seq<usize> {
    Seq::new(n as nat, |i: int| i as usize)
}

/// The tick interval after one sample: halved (but never below the floor)
/// when the sample carried more than the threshold of events, else kept.
/// Halving is monotone; the interval never grows back.
pub open spec fn spec_next_interval(interval_millis: u64, total: int) -> int {
    if total > INTERVAL_HALVING_THRESHOLD {
        if interval_millis / 2 < MIN_INTERVAL_MILLIS {
            MIN_INTERVAL_MILLIS as int
        } else {
            (interval_millis / 2) as int
        }
    } else {
        interval_millis as int
    }
}

/// Per-run sampling state: limit, limiter generation, cadence, pool.
pub struct TpsSampler {
    pub tps_limit: u32,
    pub limiter_generation: u64,
    pub interval_millis: u64,
    pub concurrency: usize,
    pub worker_ids: Vec<usize>,
}

impl View for TpsSampler {
    type V = TSView;

    open spec fn view(&self) -> TSView {
        TSView {
            tps_limit: self.tps_limit,
            limiter_generation: self.limiter_generation,
            interval_millis: self.interval_millis,
            concurrency: self.concurrency,
            worker_ids: self.worker_ids@,
        }
    }
}

/// A worker's cooperative continue-check: a worker keeps iterating exactly
/// while its id is below the current pool size, which is how a shrink takes
/// effect without interrupting an iteration in flight.
pub fn worker_should_continue(worker_id: usize, pool_size: usize) -> (r: bool)
    ensures
        r == (worker_id < pool_size),
{
    worker_id < pool_size
}

impl TpsSampler {
    pub open spec fn wf(self) -> bool {
        &&& 1 <= self.tps_limit
        &&& MIN_INTERVAL_MILLIS <= self.interval_millis <= STARTING_INTERVAL_MILLIS
        &&& self.worker_ids@ == spec_identity_ids(self.concurrency)
    }

    /// A fresh sampler: one worker, the starting cadence, generation zero
    /// (one limiter has been built, none replaced).
    pub fn new(tps_limit: u32) -> (r: Self)
        requires
            1 <= tps_limit,
        ensures
            r.wf(),
            r@ == (TSView {
                tps_limit,
                limiter_generation: 0,
                interval_millis: STARTING_INTERVAL_MILLIS,
                concurrency: 1,
                worker_ids: spec_identity_ids(1),
            }),
    {
        let mut worker_ids: Vec<usize> = Vec::new();
        worker_ids.push(0);
        let r = TpsSampler {
            tps_limit,
            limiter_generation: 0,
            interval_millis: STARTING_INTERVAL_MILLIS,
            concurrency: 1,
            worker_ids,
        };
        proof {
            assert(r.worker_ids@ =~= spec_identity_ids(1));
        }
        r
    }

    /// Folds one tick's counts into a sample and adapts the cadence: a tick
    /// carrying more than the threshold of events halves the interval, down
    /// to the floor. The interval never grows back.
    pub fn sample_tps(&mut self, success_count: u64, error_count: u64, elapsed_millis: u64) -> (r:
        TpsData)
        requires
            old(self).wf(),
            1 <= elapsed_millis,
            success_count + error_count <= MAX_SAMPLE_EVENTS,
        ensures
            final(self).wf(),
            r == (TpsData { elapsed_millis, success_count, error_count }),
            r.wf(),
            final(self)@ == (TSView {
                interval_millis: spec_next_interval(
                    old(self)@.interval_millis,
                    r.spec_total(),
                ) as u64,
                ..old(self)@
            }),
            final(self).interval_millis <= old(self).interval_millis,
    {
        let data = TpsData { elapsed_millis, success_count, error_count };
        if data.total() > INTERVAL_HALVING_THRESHOLD {
            let half = self.interval_millis / 2;
            self.interval_millis = if half < MIN_INTERVAL_MILLIS {
                MIN_INTERVAL_MILLIS
            } else {
                half
            };
        }
        data
    }

    /// Resizes the pool to exactly `concurrency` workers: surplus ids are
    /// dropped (their workers exit at their next continue-check), missing
    /// ones are assigned in order. A zero size is reserved for shutdown and
    /// excluded here.
    pub fn set_concurrency(&mut self, concurrency: usize)
        requires
            old(self).wf(),
            1 <= concurrency,
        ensures
            final(self).wf(),
            final(self)@ == (TSView {
                concurrency,
                worker_ids: spec_identity_ids(concurrency),
                ..old(self)@
            }),
    {
        self.concurrency = concurrency;
        while self.worker_ids.len() > concurrency
            invariant
                1 <= concurrency,
                self.tps_limit == old(self).tps_limit,
                self.limiter_generation == old(self).limiter_generation,
                self.interval_millis == old(self).interval_millis,
                self.concurrency == concurrency,
                forall|i: int|
                    0 <= i < self.worker_ids@.len() ==> self.worker_ids@[i] == i as usize,
            decreases self.worker_ids@.len(),
        {
            self.worker_ids.pop();
        }
        while self.worker_ids.len() < concurrency
            invariant
                self.tps_limit == old(self).tps_limit,
                self.limiter_generation == old(self).limiter_generation,
                self.interval_millis == old(self).interval_millis,
                self.concurrency == concurrency,
                self.worker_ids@.len() <= concurrency,
                forall|i: int|
                    0 <= i < self.worker_ids@.len() ==> self.worker_ids@[i] == i as usize,
            decreases concurrency - self.worker_ids@.len(),
        {
            let id = self.worker_ids.len();
            self.worker_ids.push(id);
        }
        proof {
            assert(self.worker_ids@ =~= spec_identity_ids(concurrency));
        }
    }

    /// Applies a new rate limit. Setting the current value is a no-op: in
    /// particular the shared limiter is not replaced, which the generation
    /// count makes observable. A changed value replaces the limiter once.
    pub fn set_tps_limit(&mut self, tps_limit: u32)
        requires
            old(self).wf(),
            1 <= tps_limit,
            old(self).limiter_generation < u64::MAX,
        ensures
            final(self).wf(),
            tps_limit == old(self).tps_limit ==> final(self)@ == old(self)@,
            tps_limit != old(self).tps_limit ==> final(self)@ == (TSView {
                tps_limit,
                limiter_generation: (old(self)@.limiter_generation + 1) as u64,
                ..old(self)@
            }),
    {
        if tps_limit != self.tps_limit {
            self.tps_limit = tps_limit;
            self.limiter_generation = self.limiter_generation + 1;
        }
    }

    /// The shutdown transition: the pool size goes to zero, every worker's
    /// continue-check now fails, and the drained ids stand for the handles
    /// the engine awaits.
    pub fn wait_for_shutdown(&mut self)
        requires
            old(self).wf(),
        ensures
            final(self)@ == (TSView {
                concurrency: 0,
                worker_ids: spec_identity_ids(0),
                ..old(self)@
            }),
    {
        self.concurrency = 0;
        self.worker_ids.clear();
        proof {
            assert(self.worker_ids@ =~= spec_identity_ids(0));
        }
    }
}

/// The mathematical content of a `ConcurrentSampler`.
pub ghost struct CSView {
    pub sampler: TSView,
    pub cc: CCView,
    pub window: WindowView,
    pub needs_clear: bool,
}

/// One sampling cycle as a pure function of the state and the tick's plain
/// values: clear the window if a reconfiguration is pending, adapt the
/// cadence, push the sample, and -- once the window is full -- run the
/// controller and apply its message (a new pool size flags the window for
/// clearing; a rate cap also moves the goal and replaces the limiter if it
/// actually changes it).
pub open spec fn spec_sampling_cycle(
    v: CSView,
    success_count: u64,
    error_count: u64,
    elapsed_millis: u64,
) -> (CSView, Option<CCOutcome>) {
    let w0 = if v.needs_clear {
        spec_cleared_window()
    } else {
        v.window
    };
    let data = TpsData { elapsed_millis, success_count, error_count };
    let ts1 = TSView {
        interval_millis: spec_next_interval(v.sampler.interval_millis, data.spec_total()) as u64,
        ..v.sampler
    };
    let w1 = spec_window_push(w0, data);
    if w1.samples.len() == SAMPLE_WINDOW_SIZE {
        let mean = (spec_sum_tps_millis(w1.samples) / (SAMPLE_WINDOW_SIZE as int)) as u64;
        let out = spec_outcome(v.cc, mean);
        let cc1 = spec_step(v.cc, mean);
        match out {
            CCOutcome::Stable => (
                CSView { sampler: ts1, cc: cc1, window: w1, needs_clear: false },
                Some(out),
            ),
            CCOutcome::AlterConcurrency(n) => (
                CSView {
                    sampler: TSView {
                        concurrency: n,
                        worker_ids: spec_identity_ids(n),
                        ..ts1
                    },
                    cc: cc1,
                    window: w1,
                    needs_clear: true,
                },
                Some(out),
            ),
            CCOutcome::TpsLimited(max_tps, pulled) => {
                let ts2 = TSView {
                    concurrency: pulled,
                    worker_ids: spec_identity_ids(pulled),
                    ..ts1
                };
                if max_tps != ts2.tps_limit {
                    (
                        CSView {
                            sampler: TSView {
                                tps_limit: max_tps,
                                limiter_generation: (ts2.limiter_generation + 1) as u64,
                                ..ts2
                            },
                            cc: CCView { goal_tps: max_tps, ..cc1 },
                            window: w1,
                            needs_clear: true,
                        },
                        Some(out),
                    )
                } else {
                    (CSView { sampler: ts2, cc: cc1, window: w1, needs_clear: true }, Some(out))
                }
            },
        }
    } else {
        (CSView { sampler: ts1, cc: v.cc, window: w1, needs_clear: false }, None)
    }
}

/// The state a fresh `ConcurrentSampler` starts in.
pub open spec fn spec_initial_sampler(goal_tps: u32, starting_concurrency: usize) -> CSView {
    CSView {
        sampler: TSView {
            tps_limit: goal_tps,
            limiter_generation: 0,
            interval_millis: STARTING_INTERVAL_MILLIS,
            concurrency: starting_concurrency,
            worker_ids: spec_identity_ids(starting_concurrency),
        },
        cc: CCView {
            goal_tps,
            concurrency: starting_concurrency,
            starting_concurrency,
            measurements: Seq::empty(),
            tps_limited: false,
        },
        window: spec_cleared_window(),
        needs_clear: false,
    }
}

/// A stable decision leaves every knob alone: across a whole sampling cycle
/// whose outcome is `Stable`, the pool size, the rate limit, the limiter
/// generation and the entire controller state (history included) are
/// unchanged; only the ring and the cadence move.
pub proof fn lemma_stable_cycle_keeps_knobs(
    v: CSView,
    success_count: u64,
    error_count: u64,
    elapsed_millis: u64,
)
    requires
        spec_sampling_cycle(v, success_count, error_count, elapsed_millis).1 == Some(
            CCOutcome::Stable,
        ),
    ensures
        ({
            let v1 = spec_sampling_cycle(v, success_count, error_count, elapsed_millis).0;
            &&& v1.cc == v.cc
            &&& v1.sampler.concurrency == v.sampler.concurrency
            &&& v1.sampler.worker_ids == v.sampler.worker_ids
            &&& v1.sampler.tps_limit == v.sampler.tps_limit
            &&& v1.sampler.limiter_generation == v.sampler.limiter_generation
        }),
{
}

/// A sampler, its sample window, and the controller deciding over them.
pub struct ConcurrentSampler {
    pub tps_sampler: TpsSampler,
    pub cc: ConcurrencyController,
    pub samples: SampleSet,
    pub needs_clear: bool,
}

impl View for ConcurrentSampler {
    type V = CSView;

    open spec fn view(&self) -> CSView {
        CSView {
            sampler: self.tps_sampler@,
            cc: self.cc@,
            window: self.samples@,
            needs_clear: self.needs_clear,
        }
    }
}

impl ConcurrentSampler {
    pub open spec fn wf(self) -> bool {
        &&& self.tps_sampler.wf()
        &&& self.cc.wf()
        &&& self.samples.wf()
    }

    pub fn new(goal_tps: u32, starting_concurrency: usize) -> (r: Self)
        requires
            1 <= goal_tps,
            1 <= starting_concurrency,
        ensures
            r.wf(),
            r@ == spec_initial_sampler(goal_tps, starting_concurrency),
    {
        let mut tps_sampler = TpsSampler::new(goal_tps);
        tps_sampler.set_concurrency(starting_concurrency);
        ConcurrentSampler {
            tps_sampler,
            cc: ConcurrencyController::new(goal_tps, starting_concurrency),
            samples: SampleSet::new(),
            needs_clear: false,
        }
    }

    /// One sampling cycle over one tick's plain values, exactly
    /// `spec_sampling_cycle`. Returns the controller's message once the
    /// window is full, `None` while it is still filling.
    pub fn get_samples(&mut self, success_count: u64, error_count: u64, elapsed_millis: u64) -> (r:
        Option<CCOutcome>)
        requires
            old(self).wf(),
            1 <= elapsed_millis,
            success_count + error_count <= MAX_SAMPLE_EVENTS,
            old(self)@.cc.concurrency <= usize::MAX - MAX_CHANGE,
            old(self)@.sampler.limiter_generation < u64::MAX,
        ensures
            final(self).wf(),
            (final(self)@, r) == spec_sampling_cycle(
                old(self)@,
                success_count,
                error_count,
                elapsed_millis,
            ),
    {
        if self.needs_clear {
            self.samples.clear();
            self.needs_clear = false;
        }
        let data = self.tps_sampler.sample_tps(success_count, error_count, elapsed_millis);
        self.samples.push(data);
        if self.samples.full() {
            let mean = self.samples.mean_tps_millis();
            let ghost cc0 = self.cc@;
            let outcome = self.cc.analyze(mean);
            proof {
                crate::controller::lemma_proposed_positive(cc0, mean);
            }
            match outcome {
                CCOutcome::Stable => {},
                CCOutcome::TpsLimited(max_tps, pulled) => {
                    self.set_concurrency(pulled);
                    self.set_goal_tps_unchecked(max_tps);
                },
                CCOutcome::AlterConcurrency(n) => {
                    self.set_concurrency(n);
                },
            }
            Some(outcome)
        } else {
            None
        }
    }

    /// Moves the goal rate, unless the rate-limited latch is set and the new
    /// goal exceeds the detected limit -- such an increase is ignored.
    pub fn set_goal_tps(&mut self, goal_tps: u32)
        requires
            old(self).wf(),
            1 <= goal_tps,
            old(self)@.sampler.limiter_generation < u64::MAX,
        ensures
            final(self).wf(),
            old(self)@.cc.tps_limited && goal_tps > old(self)@.sampler.tps_limit ==> final(self)@
                == old(self)@,
            !(old(self)@.cc.tps_limited && goal_tps > old(self)@.sampler.tps_limit) ==> {
                &&& goal_tps == old(self)@.sampler.tps_limit ==> final(self)@ == old(self)@
                &&& goal_tps != old(self)@.sampler.tps_limit ==> final(self)@ == (CSView {
                    sampler: TSView {
                        tps_limit: goal_tps,
                        limiter_generation: (old(self)@.sampler.limiter_generation + 1) as u64,
                        ..old(self)@.sampler
                    },
                    cc: CCView { goal_tps, ..old(self)@.cc },
                    window: old(self)@.window,
                    needs_clear: true,
                })
            },
    {
        if self.cc.tps_limited() && goal_tps > self.tps_sampler.tps_limit {
            // rate-limited: the goal cannot be raised past the detected cap
        } else {
            self.set_goal_tps_unchecked(goal_tps);
        }
    }

    /// The shutdown transition of the underlying sampler.
    pub fn wait_for_shutdown(&mut self)
        requires
            old(self).wf(),
        ensures
            final(self)@ == (CSView {
                sampler: TSView {
                    concurrency: 0,
                    worker_ids: spec_identity_ids(0),
                    ..old(self)@.sampler
                },
                ..old(self)@
            }),
    {
        self.tps_sampler.wait_for_shutdown();
    }

    /// Applies a new pool size and flags the window: the next cycle starts
    /// from post-change samples only.
    fn set_concurrency(&mut self, concurrency: usize)
        requires
            old(self).wf(),
            1 <= concurrency,
        ensures
            final(self).wf(),
            final(self)@ == (CSView {
                sampler: TSView {
                    concurrency,
                    worker_ids: spec_identity_ids(concurrency),
                    ..old(self)@.sampler
                },
                needs_clear: true,
                ..old(self)@
            }),
    {
        self.needs_clear = true;
        self.tps_sampler.set_concurrency(concurrency);
    }

    /// Moves the goal without consulting the latch. A goal equal to the
    /// current limit changes nothing; otherwise controller and limiter are
    /// updated and the window is flagged for clearing.
    fn set_goal_tps_unchecked(&mut self, goal_tps: u32)
        requires
            old(self).wf(),
            1 <= goal_tps,
            old(self)@.sampler.limiter_generation < u64::MAX,
        ensures
            final(self).wf(),
            goal_tps == old(self)@.sampler.tps_limit ==> final(self)@ == old(self)@,
            goal_tps != old(self)@.sampler.tps_limit ==> final(self)@ == (CSView {
                sampler: TSView {
                    tps_limit: goal_tps,
                    limiter_generation: (old(self)@.sampler.limiter_generation + 1) as u64,
                    ..old(self)@.sampler
                },
                cc: CCView { goal_tps, ..old(self)@.cc },
                window: old(self)@.window,
                needs_clear: true,
            }),
    {
        if goal_tps != self.tps_sampler.tps_limit {
            self.needs_clear = true;
            self.cc.set_goal_tps(goal_tps);
            self.tps_sampler.set_tps_limit(goal_tps);
        }
    }
}

} // verus!
