use balter::controller::CCOutcome;
use balter::data::{Counters, TpsData};
use balter::sampler::{
    worker_should_continue, ConcurrentSampler, TpsSampler, MIN_INTERVAL_MILLIS,
    STARTING_INTERVAL_MILLIS,
};

/// Rate arithmetic on a sample: 200 events over 200 ms is 1000 TPS.
#[test]
fn tps_data_rate() {
    let d = TpsData { elapsed_millis: 200, success_count: 190, error_count: 10 };
    assert_eq!(d.total(), 200);
    assert_eq!(d.tps_millis(), 1_000_000);
}

/// Conservation: every event recorded is reported in exactly one sample.
#[test]
fn counters_conserve_events() {
    let mut c = Counters::new();
    for _ in 0..5 {
        c.record_success();
    }
    for _ in 0..2 {
        c.record_error();
    }
    let first = c.take(100);
    assert_eq!(first.success_count, 5);
    assert_eq!(first.error_count, 2);
    assert_eq!(c.success, 0);
    assert_eq!(c.error, 0);
    for _ in 0..3 {
        c.record_success();
    }
    let second = c.take(100);
    assert_eq!(second.success_count, 3);
    // totals across samples equal totals recorded
    assert_eq!(c.drained_success, 8);
    assert_eq!(c.drained_error, 2);
    assert_eq!(
        first.success_count + first.error_count + second.success_count + second.error_count,
        10
    );
}

/// Setting the current rate limit is a no-op: the limiter is not replaced,
/// which the generation count makes observable.
#[test]
fn set_tps_limit_same_value_is_noop() {
    let mut s = TpsSampler::new(1_000);
    assert_eq!(s.limiter_generation, 0);
    s.set_tps_limit(1_000);
    assert_eq!(s.limiter_generation, 0);
    assert_eq!(s.tps_limit, 1_000);
    s.set_tps_limit(800);
    assert_eq!(s.limiter_generation, 1);
    assert_eq!(s.tps_limit, 800);
    s.set_tps_limit(800);
    assert_eq!(s.limiter_generation, 1);
}

/// A sample above the event threshold halves the interval; halving is
/// monotone and stops at the floor.
#[test]
fn interval_halves_and_clamps() {
    let mut s = TpsSampler::new(5_000);
    assert_eq!(s.interval_millis, STARTING_INTERVAL_MILLIS);
    s.sample_tps(2_001, 0, 1_000);
    assert_eq!(s.interval_millis, 100);
    s.sample_tps(1_000, 1_500, 1_000);
    assert_eq!(s.interval_millis, 50);
    s.sample_tps(2_001, 0, 1_000);
    assert_eq!(s.interval_millis, 25);
    s.sample_tps(2_001, 0, 1_000);
    assert_eq!(s.interval_millis, 12);
    s.sample_tps(2_001, 0, 1_000);
    assert_eq!(s.interval_millis, MIN_INTERVAL_MILLIS);
    s.sample_tps(2_001, 0, 1_000);
    assert_eq!(s.interval_millis, MIN_INTERVAL_MILLIS);
}

/// A sample at or below the threshold leaves the cadence alone.
#[test]
fn interval_keeps_cadence_under_threshold() {
    let mut s = TpsSampler::new(5_000);
    s.sample_tps(2_000, 0, 1_000);
    assert_eq!(s.interval_millis, STARTING_INTERVAL_MILLIS);
}

/// The pool model: ids are always 0..n, grown and shrunk in place.
#[test]
fn pool_ids_follow_concurrency() {
    let mut s = TpsSampler::new(100);
    assert_eq!(s.worker_ids, vec![0]);
    s.set_concurrency(4);
    assert_eq!(s.worker_ids, vec![0, 1, 2, 3]);
    s.set_concurrency(2);
    assert_eq!(s.worker_ids, vec![0, 1]);
    s.wait_for_shutdown();
    assert_eq!(s.concurrency, 0);
    assert!(s.worker_ids.is_empty());
}

/// The cooperative shrink rule: a worker continues only while its id is
/// below the pool size.
#[test]
fn worker_continue_rule() {
    assert!(worker_should_continue(0, 1));
    assert!(worker_should_continue(3, 4));
    assert!(!worker_should_continue(4, 4));
    assert!(!worker_should_continue(0, 0));
}

/// The under-concurrency ramp at the sampler level: at goal 2000 TPS with 4
/// workers measuring 1600 TPS, the first full window moves the pool to 5.
#[test]
fn under_concurrency_ramp() {
    let mut s = ConcurrentSampler::new(2_000, 4);
    let mut decision = None;
    for _ in 0..13 {
        if let Some(out) = s.get_samples(1_600, 0, 1_000) {
            decision = Some(out);
        }
    }
    assert_eq!(decision, Some(CCOutcome::AlterConcurrency(5)));
    assert_eq!(s.tps_sampler.concurrency, 5);
    assert_eq!(s.tps_sampler.worker_ids, vec![0, 1, 2, 3, 4]);
}

/// Once the rate limit is latched by a TpsLimited decision, a goal above the
/// cap is ignored; a goal at or below it still applies.
#[test]
fn latched_goal_increase_is_ignored() {
    let mut s = ConcurrentSampler::new(10_000, 10);
    let mut decisions = Vec::new();
    // four full windows at a hard 500 TPS plateau
    for round in 0..4 {
        let success = [500u64, 505, 508, 510][round];
        for _ in 0..13 {
            if let Some(out) = s.get_samples(success, 0, 1_000) {
                decisions.push(out);
            }
        }
    }
    assert_eq!(decisions.len(), 4);
    assert_eq!(decisions[3], CCOutcome::TpsLimited(505, 82));
    assert_eq!(s.tps_sampler.tps_limit, 505);
    let generation = s.tps_sampler.limiter_generation;
    // latched: raising the goal past the cap does nothing
    s.set_goal_tps(20_000);
    assert_eq!(s.tps_sampler.tps_limit, 505);
    assert_eq!(s.tps_sampler.limiter_generation, generation);
    // lowering it still works
    s.set_goal_tps(400);
    assert_eq!(s.tps_sampler.tps_limit, 400);
    assert_eq!(s.tps_sampler.limiter_generation, generation + 1);
}
