//! The goal-TPS run as a state machine: each tick's plain values go in, and
//! out comes either "keep sampling", one applied controller decision (with
//! the surplus configuration to offer a peer, if the run turned out
//! rate-limited), or the final statistics once the duration is spent.

use vstd::prelude::*;
use crate::controller::{CCOutcome, MAX_CHANGE};
use crate::data::MAX_SAMPLE_EVENTS;
use crate::sampler::{spec_initial_sampler, spec_sampling_cycle, ConcurrentSampler, CSView, TSView};
use crate::scenario::{RunStatistics, ScenarioConfig, ScenarioKind};

verus! {

/// What one runner step asks of the engine.
#[derive(Debug)]
pub enum StepResult {
    /// The window is still filling; keep sampling.
    Continue,
    /// A full window produced this decision (already applied to the
    /// sampler); a rate-limited decision may carry a surplus configuration
    /// to offer a peer.
    Decided(CCOutcome, Option<ScenarioConfig>),
    /// The duration is spent: the pool is shut down, the gauges are zeroed,
    /// and these are the run's statistics.
    Finished(RunStatistics),
}

/// The goal rate of a goal-TPS configuration.
pub open spec fn spec_goal_of(config: ScenarioConfig) -> u32 {
    match config.kind {
        ScenarioKind::Tps(t) => t,
        _ => 0,
    }
}

/// The configuration handed to a peer when the local node is rate-limited:
/// the same scenario, the duration that remains, and the goal rate the local
/// node cannot absorb.
pub fn distribute_work(config: &ScenarioConfig, elapsed_millis: u64, self_tps: u32) -> (r:
    ScenarioConfig)
    requires
        config.kind is Tps,
        self_tps < spec_goal_of(*config),
        elapsed_millis <= config.duration_millis,
    ensures
        r.name == config.name,
        r.duration_millis == config.duration_millis - elapsed_millis,
        r.kind == ScenarioKind::Tps((spec_goal_of(*config) - self_tps) as u32),
{
    let goal = config.goal_tps().unwrap();
    ScenarioConfig {
        name: config.name.clone(),
        duration_millis: config.duration_millis - elapsed_millis,
        kind: ScenarioKind::Tps(goal - self_tps),
    }
}

/// The runner for a goal-TPS scenario: the immutable configuration, the
/// sampling machinery, the two per-name gauges (which always reflect the
/// last decision applied), and whether the last decision left the run
/// stable.
pub struct TpsRunner {
    pub config: ScenarioConfig,
    pub sampler: ConcurrentSampler,
    pub concurrency_gauge: usize,
    pub goal_tps_gauge: u32,
    pub stable: bool,
}

impl TpsRunner {
    pub open spec fn wf(self) -> bool {
        &&& self.sampler.wf()
        &&& self.config.kind is Tps
    }

    pub fn new(config: ScenarioConfig, starting_concurrency: usize) -> (r: Self)
        requires
            config.kind is Tps,
            1 <= spec_goal_of(config),
            1 <= starting_concurrency,
        ensures
            r.wf(),
            r.config == config,
            r.sampler@ == spec_initial_sampler(spec_goal_of(config), starting_concurrency),
            r.concurrency_gauge == starting_concurrency,
            r.goal_tps_gauge == spec_goal_of(config),
            r.stable == false,
    {
        let goal = config.goal_tps().unwrap();
        let sampler = ConcurrentSampler::new(goal, starting_concurrency);
        TpsRunner {
            config,
            sampler,
            concurrency_gauge: starting_concurrency,
            goal_tps_gauge: goal,
            stable: false,
        }
    }

    /// One iteration of the run loop, on one tick's plain values.
    ///
    /// Past the duration, the pool is shut down, both gauges read zero, and
    /// the statistics are returned. Otherwise the tick goes through one
    /// sampling cycle; a decision updates the gauges to the values it
    /// applied, and a rate-limited decision whose cap is below the original
    /// goal carries the surplus configuration for a peer.
    pub fn step(
        &mut self,
        success_count: u64,
        error_count: u64,
        elapsed_millis: u64,
        run_elapsed_millis: u64,
    ) -> (r: StepResult)
        requires
            old(self).wf(),
            1 <= elapsed_millis,
            success_count + error_count <= MAX_SAMPLE_EVENTS,
            old(self).sampler@.cc.concurrency <= usize::MAX - MAX_CHANGE,
            old(self).sampler@.sampler.limiter_generation < u64::MAX,
        ensures
            final(self).wf(),
            final(self).config == old(self).config,
            run_elapsed_millis > old(self).config.duration_millis ==> {
                &&& r == StepResult::Finished(
                    RunStatistics {
                        concurrency: old(self).sampler@.cc.concurrency,
                        goal_tps: old(self).sampler@.cc.goal_tps,
                        stable: old(self).stable,
                    },
                )
                &&& final(self).sampler@ == (CSView {
                    sampler: TSView {
                        concurrency: 0,
                        worker_ids: crate::sampler::spec_identity_ids(0),
                        ..old(self).sampler@.sampler
                    },
                    ..old(self).sampler@
                })
                &&& final(self).concurrency_gauge == 0
                &&& final(self).goal_tps_gauge == 0
                &&& final(self).stable == old(self).stable
            },
            run_elapsed_millis <= old(self).config.duration_millis ==> {
                let (v1, out) = spec_sampling_cycle(
                    old(self).sampler@,
                    success_count,
                    error_count,
                    elapsed_millis,
                );
                &&& final(self).sampler@ == v1
                &&& (out is None ==> {
                    &&& r == StepResult::Continue
                    &&& final(self).concurrency_gauge == old(self).concurrency_gauge
                    &&& final(self).goal_tps_gauge == old(self).goal_tps_gauge
                    &&& final(self).stable == old(self).stable
                })
                &&& (out == Some(CCOutcome::Stable) ==> {
                    &&& r == StepResult::Decided(CCOutcome::Stable, None::<ScenarioConfig>)
                    &&& final(self).concurrency_gauge == old(self).concurrency_gauge
                    &&& final(self).goal_tps_gauge == old(self).goal_tps_gauge
                    &&& final(self).stable == true
                })
                &&& (forall|n: usize|
                    out == Some(CCOutcome::AlterConcurrency(n)) ==> {
                        &&& r == StepResult::Decided(
                            CCOutcome::AlterConcurrency(n),
                            None::<ScenarioConfig>,
                        )
                        &&& final(self).concurrency_gauge == n
                        &&& final(self).goal_tps_gauge == old(self).goal_tps_gauge
                        &&& final(self).stable == false
                    })
                &&& (forall|max_tps: u32, pulled: usize|
                    out == Some(CCOutcome::TpsLimited(max_tps, pulled)) ==> {
                        &&& final(self).concurrency_gauge == pulled
                        &&& final(self).goal_tps_gauge == max_tps
                        &&& final(self).stable == true
                        &&& (max_tps < spec_goal_of(old(self).config) ==> r
                            == StepResult::Decided(
                            CCOutcome::TpsLimited(max_tps, pulled),
                            Some(
                                ScenarioConfig {
                                    name: old(self).config.name,
                                    duration_millis: (old(self).config.duration_millis
                                        - run_elapsed_millis) as u64,
                                    kind: ScenarioKind::Tps(
                                        (spec_goal_of(old(self).config) - max_tps) as u32,
                                    ),
                                },
                            ),
                        ))
                        &&& (max_tps >= spec_goal_of(old(self).config) ==> r
                            == StepResult::Decided(
                            CCOutcome::TpsLimited(max_tps, pulled),
                            None::<ScenarioConfig>,
                        ))
                    })
            },
    {
        if run_elapsed_millis > self.config.duration_millis {
            let stats = RunStatistics {
                concurrency: self.sampler.cc.concurrency,
                goal_tps: self.sampler.cc.goal_tps,
                stable: self.stable,
            };
            self.sampler.wait_for_shutdown();
            self.concurrency_gauge = 0;
            self.goal_tps_gauge = 0;
            return StepResult::Finished(stats);
        }
        match self.sampler.get_samples(success_count, error_count, elapsed_millis) {
            None => StepResult::Continue,
            Some(outcome) => match outcome {
                CCOutcome::Stable => {
                    self.stable = true;
                    StepResult::Decided(outcome, None)
                },
                CCOutcome::AlterConcurrency(n) => {
                    self.stable = false;
                    self.concurrency_gauge = n;
                    StepResult::Decided(outcome, None)
                },
                CCOutcome::TpsLimited(max_tps, pulled) => {
                    self.stable = true;
                    self.concurrency_gauge = pulled;
                    self.goal_tps_gauge = max_tps;
                    let goal = self.config.goal_tps().unwrap();
                    let surplus = if max_tps < goal {
                        Some(distribute_work(&self.config, run_elapsed_millis, max_tps))
                    } else {
                        None
                    };
                    StepResult::Decided(outcome, surplus)
                },
            },
        }
    }
}

} // verus!
