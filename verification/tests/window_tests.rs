use balter::data::TpsData;
use balter::window::{SampleSet, SAMPLE_WINDOW_SIZE, SKIP_SIZE};

fn tick(success: u64) -> TpsData {
    TpsData { elapsed_millis: 1_000, success_count: success, error_count: 0 }
}

/// The first SKIP_SIZE pushes after construction are discarded; the window
/// fills only with the SAMPLE_WINDOW_SIZE pushes after them.
#[test]
fn window_fills_after_skips() {
    let mut w = SampleSet::new();
    for i in 0..(SKIP_SIZE + SAMPLE_WINDOW_SIZE - 1) {
        w.push(tick(100 + i as u64));
        assert!(!w.full());
    }
    w.push(tick(42));
    assert!(w.full());
}

/// After clear(), the next three pushes do not count toward full().
#[test]
fn three_pushes_after_clear_do_not_count() {
    let mut w = SampleSet::new();
    for i in 0..(SKIP_SIZE + SAMPLE_WINDOW_SIZE) {
        w.push(tick(i as u64 + 1));
    }
    assert!(w.full());
    w.clear();
    assert!(!w.full());
    for _ in 0..SKIP_SIZE {
        w.push(tick(500));
        assert!(!w.full());
        assert_eq!(w.samples.len(), 0);
    }
    // only now do pushes land in the ring
    w.push(tick(500));
    assert_eq!(w.samples.len(), 1);
}

/// The mean is the arithmetic mean of the ring's rates, in milli-TPS.
#[test]
fn mean_is_exact() {
    let mut w = SampleSet::new();
    for _ in 0..SKIP_SIZE {
        w.push(tick(999));
    }
    for i in 0..SAMPLE_WINDOW_SIZE {
        // 100..109 events over one second: 100_000..109_000 milli-TPS
        w.push(tick(100 + i as u64));
    }
    assert!(w.full());
    assert_eq!(w.mean_tps_millis(), 104_500);
}

/// At capacity the ring evicts its oldest record.
#[test]
fn ring_evicts_oldest() {
    let mut w = SampleSet::new();
    for _ in 0..SKIP_SIZE {
        w.push(tick(1));
    }
    for _ in 0..SAMPLE_WINDOW_SIZE {
        w.push(tick(100));
    }
    assert_eq!(w.mean_tps_millis(), 100_000);
    // ten more pushes displace every old record
    for _ in 0..SAMPLE_WINDOW_SIZE {
        w.push(tick(200));
        assert!(w.full());
    }
    assert_eq!(w.mean_tps_millis(), 200_000);
}
