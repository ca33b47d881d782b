//! A fixed-capacity ring of the most recent samples, with a configurable
//! number of post-reconfiguration pushes discarded as transient.

use vstd::prelude::*;
use crate::data::{TpsData, MAX_SAMPLE_EVENTS};

verus! {

/// How many non-skipped samples the ring holds once full.
pub const SAMPLE_WINDOW_SIZE: usize = 10;

/// How many pushes after a `clear` are discarded as transient.
pub const SKIP_SIZE: usize = 3;

/// The mathematical content of a `SampleSet`: the ring and the number of
/// transient pushes still to be discarded.
pub ghost struct WindowView {
    pub samples: Seq<TpsData>,
    pub skip_remaining: int,
}

/// What one push does to the ring itself: append, evicting the oldest
/// record once the ring is at capacity.
pub open spec fn spec_ring_push(window: Seq<TpsData>, data: TpsData) -> Seq<TpsData> {
    if window.len() < SAMPLE_WINDOW_SIZE {
        window.push(data)
    } else {
        window.drop_first().push(data)
    }
}

/// What one push does to the whole window: a transient push is discarded and
/// burns one skip credit; any other push lands in the ring.
pub open spec fn spec_window_push(v: WindowView, data: TpsData) -> WindowView {
    if v.skip_remaining > 0 {
        WindowView { samples: v.samples, skip_remaining: v.skip_remaining - 1 }
    } else {
        WindowView { samples: spec_ring_push(v.samples, data), skip_remaining: v.skip_remaining }
    }
}

/// The window just after a `clear`: empty, with the skip credits rearmed.
pub open spec fn spec_cleared_window() -> WindowView {
    WindowView { samples: Seq::empty(), skip_remaining: SKIP_SIZE as int }
}

/// The sum of the per-sample rates, in milli-TPS.
pub open spec fn spec_sum_tps_millis(window: Seq<TpsData>) -> int
    decreases window.len(),
{
    if window.len() == 0 {
        0
    } else {
        window.first().spec_tps_millis() + spec_sum_tps_millis(window.drop_first())
    }
}

/// Appending a record adds its rate to the sum.
pub proof fn lemma_sum_tps_millis_push(window: Seq<TpsData>, data: TpsData)
    ensures
        spec_sum_tps_millis(window.push(data)) == spec_sum_tps_millis(window)
            + data.spec_tps_millis(),
    decreases window.len(),
{
    if window.len() == 0 {
        assert(window.push(data).drop_first() =~= window);
    } else {
        assert(window.push(data).drop_first() =~= window.drop_first().push(data));
        lemma_sum_tps_millis_push(window.drop_first(), data);
    }
}

/// The ring of recent `TpsData` records the controller decides on.
pub struct SampleSet {
    pub samples: Vec<TpsData>,
    pub skip_remaining: usize,
}

impl View for SampleSet {
    type V = WindowView;

    open spec fn view(&self) -> WindowView {
        WindowView { samples: self.samples@, skip_remaining: self.skip_remaining as int }
    }
}

impl SampleSet {
    pub open spec fn wf(self) -> bool {
        &&& self.samples@.len() <= SAMPLE_WINDOW_SIZE
        &&& self.skip_remaining <= SKIP_SIZE
        &&& forall|i: int| 0 <= i < self.samples@.len() ==> self.samples@[i].wf()
    }

    /// The arithmetic mean of the ring's rates, in milli-TPS.
    pub open spec fn spec_mean_tps_millis(self) -> int {
        spec_sum_tps_millis(self.samples@) / (self.samples@.len() as int)
    }

    pub fn new() -> (r: Self)
        ensures
            r.wf(),
            r@ == spec_cleared_window(),
    {
        let r = SampleSet { samples: Vec::new(), skip_remaining: SKIP_SIZE };
        proof {
            assert(r@.samples =~= spec_cleared_window().samples);
        }
        r
    }

    /// Accepts one sample, as `spec_window_push` describes: the first
    /// `SKIP_SIZE` pushes after a `clear` (or after construction) are
    /// discarded; afterwards each push lands in the ring, evicting the oldest
    /// record once the ring is at capacity.
    pub fn push(&mut self, data: TpsData)
        requires
            old(self).wf(),
            data.wf(),
        ensures
            final(self).wf(),
            final(self)@ == spec_window_push(old(self)@, data),
    {
        if self.skip_remaining > 0 {
            self.skip_remaining = self.skip_remaining - 1;
        } else {
            if self.samples.len() == SAMPLE_WINDOW_SIZE {
                self.samples.remove(0);
            }
            self.samples.push(data);
        }
    }

    /// True once `SAMPLE_WINDOW_SIZE` non-skipped samples have accumulated.
    pub fn full(&self) -> (r: bool)
        ensures
            r == (self@.samples.len() == SAMPLE_WINDOW_SIZE),
    {
        self.samples.len() == SAMPLE_WINDOW_SIZE
    }

    /// Empties the ring and rearms the transient-skip counter.
    pub fn clear(&mut self)
        ensures
            final(self).wf(),
            final(self)@ == spec_cleared_window(),
    {
        self.samples.clear();
        self.skip_remaining = SKIP_SIZE;
        proof {
            assert(self@.samples =~= spec_cleared_window().samples);
        }
    }

    /// The mean rate over the ring, in milli-TPS, rounded toward zero.
    pub fn mean_tps_millis(&self) -> (r: u64)
        requires
            self.wf(),
            self.samples@.len() > 0,
        ensures
            r == self.spec_mean_tps_millis(),
    {
        let n = self.samples.len();
        let mut sum: u64 = 0;
        let mut i: usize = 0;
        proof {
            assert(self.samples@.take(0) =~= Seq::<TpsData>::empty());
        }
        while i < n
            invariant
                self.wf(),
                n == self.samples@.len(),
                0 <= i <= n,
                sum == spec_sum_tps_millis(self.samples@.take(i as int)),
                sum <= i * (MAX_SAMPLE_EVENTS * 1_000_000),
            decreases n - i,
        {
            let t = self.samples[i].tps_millis();
            proof {
                lemma_sum_tps_millis_push(self.samples@.take(i as int), self.samples@[i as int]);
                assert(self.samples@.take(i + 1) =~= self.samples@.take(i as int).push(
                    self.samples@[i as int],
                ));
                assert((i + 1) * (MAX_SAMPLE_EVENTS * 1_000_000) == i * (MAX_SAMPLE_EVENTS
                    * 1_000_000) + MAX_SAMPLE_EVENTS * 1_000_000) by (nonlinear_arith);
                assert(i * (MAX_SAMPLE_EVENTS * 1_000_000) <= SAMPLE_WINDOW_SIZE
                    * (MAX_SAMPLE_EVENTS * 1_000_000)) by (nonlinear_arith)
                    requires
                        0 <= i <= SAMPLE_WINDOW_SIZE,
                ;
            }
            sum = sum + t;
            i = i + 1;
        }
        proof {
            assert(self.samples@.take(n as int) =~= self.samples@);
        }
        sum / (n as u64)
    }
}

/// After a `clear`, the next `SKIP_SIZE` pushes are all discarded: whatever
/// three samples arrive, the ring stays empty, so none of them counts toward
/// `full`.
pub proof fn lemma_pushes_after_clear_are_skipped(d1: TpsData, d2: TpsData, d3: TpsData)
    ensures
        ({
            let v = spec_window_push(
                spec_window_push(spec_window_push(spec_cleared_window(), d1), d2),
                d3,
            );
            v.samples.len() == 0 && v.samples.len() != SAMPLE_WINDOW_SIZE
        }),
{
}

} // verus!
