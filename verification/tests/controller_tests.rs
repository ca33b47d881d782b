use balter::controller::{CCOutcome, ConcurrencyController, MAX_CHANGE};

/// The under-concurrency ramp: at goal 2000 TPS with 4 workers measuring
/// about 1600 TPS, the proportional step lands on ceil(4 * 2000/1600) = 5.
#[test]
fn test_simple() {
    let mut cc = ConcurrencyController::new(2_000, 4);
    let out = cc.analyze(1_600_000);
    assert_eq!(out, CCOutcome::AlterConcurrency(5));
    assert_eq!(cc.concurrency(), 5);
}

/// A mean within five percent of the goal (or above it) is stable and
/// records no measurement.
#[test]
fn stable_within_tolerance() {
    let mut cc = ConcurrencyController::new(1_000, 20);
    assert_eq!(cc.analyze(1_000_000), CCOutcome::Stable);
    assert_eq!(cc.analyze(960_000), CCOutcome::Stable);
    assert_eq!(cc.analyze(1_200_000), CCOutcome::Stable);
    assert_eq!(cc.concurrency(), 20);
    assert_eq!(cc.measurements.len(), 0);
}

/// At exactly five percent error the controller is no longer stable.
#[test]
fn boundary_error_is_not_stable() {
    let mut cc = ConcurrencyController::new(1_000, 20);
    let out = cc.analyze(950_000);
    assert!(out != CCOutcome::Stable);
    assert_eq!(cc.measurements.len(), 1);
}

/// A large shortfall is clamped to a step of MAX_CHANGE workers.
#[test]
fn step_clamped_to_max_change() {
    let mut cc = ConcurrencyController::new(100_000, 10);
    let out = cc.analyze(1_000_000);
    assert_eq!(out, CCOutcome::AlterConcurrency(10 + MAX_CHANGE));
}

/// A mean of zero cannot scale proportionally; the step is the clamp itself.
#[test]
fn zero_mean_takes_clamped_step() {
    let mut cc = ConcurrencyController::new(500, 7);
    let out = cc.analyze(0);
    assert_eq!(out, CCOutcome::AlterConcurrency(7 + MAX_CHANGE));
}

/// Two consecutive slopes under one TPS per worker declare the system under
/// test rate-limited: the cap is the third-most-recent measurement's rate in
/// whole TPS and the pool is pulled back to 0.75 of its concurrency.
#[test]
fn plateau_declares_tps_limited() {
    let mut cc = ConcurrencyController::new(10_000, 10);
    assert_eq!(cc.analyze(500_000), CCOutcome::AlterConcurrency(110));
    assert_eq!(cc.analyze(505_000), CCOutcome::AlterConcurrency(210));
    assert_eq!(cc.analyze(508_000), CCOutcome::AlterConcurrency(310));
    // history: (10, 500k), (110, 505k), (210, 508k), then (310, 510k);
    // the last two slopes are 3/100 and 2/100 TPS per worker.
    let out = cc.analyze(510_000);
    assert_eq!(out, CCOutcome::TpsLimited(505, 82));
    assert!(cc.tps_limited());
    assert_eq!(cc.concurrency(), 82);
}

/// Equal pool sizes in adjacent measurements give an undefined slope, which
/// counts as flat; detection still needs more than two slopes on record.
#[test]
fn equal_concurrency_slope_counts_as_flat() {
    let mut cc = ConcurrencyController::new(10_000, 50);
    cc.measurements.push(balter::controller::Measurement {
        concurrency: 50,
        tps_millis: 4_000_000,
    });
    cc.measurements.push(balter::controller::Measurement {
        concurrency: 50,
        tps_millis: 4_100_000,
    });
    cc.measurements.push(balter::controller::Measurement {
        concurrency: 50,
        tps_millis: 4_050_000,
    });
    // the analyze below pushes (50, 4_000_000): four points, flat slopes
    let out = cc.analyze(4_000_000);
    assert_eq!(out, CCOutcome::TpsLimited(4_100, 37));
}

/// A plateau whose derived cap would be zero is an anomaly, not a decision:
/// the controller falls back to the proportional step.
#[test]
fn zero_derived_cap_is_not_latched() {
    let mut cc = ConcurrencyController::new(10_000, 4);
    assert_eq!(cc.analyze(500), CCOutcome::AlterConcurrency(104));
    assert_eq!(cc.analyze(600), CCOutcome::AlterConcurrency(204));
    assert_eq!(cc.analyze(650), CCOutcome::AlterConcurrency(304));
    // foot would be (104, 600 milli-TPS): floor(0.6 TPS) == 0
    let out = cc.analyze(700);
    assert_eq!(out, CCOutcome::AlterConcurrency(404));
    assert!(!cc.tps_limited());
}

/// The goal can always be lowered on the controller itself; the latch logic
/// lives in the sampler wrapping it.
#[test]
fn controller_set_goal() {
    let mut cc = ConcurrencyController::new(5_000, 8);
    cc.set_goal_tps(2_000);
    assert_eq!(cc.goal_tps, 2_000);
    assert_eq!(cc.concurrency(), 8);
}
