//! The per-tick sample record and the success/error accumulators.

use vstd::prelude::*;

verus! {

/// Upper bound on the number of transaction events a single sample may carry.
/// It keeps the fixed-point rate arithmetic comfortably inside `u64`.
pub const MAX_SAMPLE_EVENTS: u64 = 0xFFFF_FFFF;

/// One sampler tick: how long the tick lasted and how many scenario
/// invocations finished during it, split by outcome.
#[derive(Clone, Copy, Debug, PartialEq, Eq, Structural)]
pub struct TpsData {
    pub elapsed_millis: u64,
    pub success_count: u64,
    pub error_count: u64,
}

impl TpsData {
    /// Ticks are timer-driven, so a zero elapsed time never occurs; the event
    /// bound keeps `tps_millis` within range.
    pub open spec fn wf(self) -> bool {
        &&& 1 <= self.elapsed_millis
        &&& self.success_count + self.error_count <= MAX_SAMPLE_EVENTS
    }

    pub open spec fn spec_total(self) -> int {
        self.success_count + self.error_count
    }

    /// The measured rate in milli-TPS: events per second, scaled by 1000 and
    /// rounded toward zero.
    pub open spec fn spec_tps_millis(self) -> int {
        self.spec_total() * 1_000_000 / (self.elapsed_millis as int)
    }

    pub fn total(&self) -> (r: u64)
        requires
            self.wf(),
        ensures
            r == self.spec_total(),
    {
        self.success_count + self.error_count
    }

    pub fn tps_millis(&self) -> (r: u64)
        requires
            self.wf(),
        ensures
            r == self.spec_tps_millis(),
            r <= MAX_SAMPLE_EVENTS * 1_000_000,
    {
        let total = self.success_count + self.error_count;
        proof {
            assert(total * 1_000_000 / (self.elapsed_millis as int) <= total * 1_000_000)
                by (nonlinear_arith)
                requires
                    self.elapsed_millis >= 1,
                    total >= 0,
            ;
        }
        total * 1_000_000 / self.elapsed_millis
    }
}

/// The success and error accumulators owned by the sampler, together with the
/// running totals of everything drained out of them so far.
///
/// In the running engine the two live counters are atomics shared with the
/// worker tasks; this type is their sequential content, which is what lets
/// conservation -- every event recorded is reported in exactly one sample --
/// be stated and proved.
pub struct Counters {
    pub success: u64,
    pub error: u64,
    pub drained_success: u64,
    pub drained_error: u64,
}

impl Counters {
    /// The drained totals never outgrow what the pending counters can join.
    pub open spec fn wf(self) -> bool {
        &&& self.success + self.drained_success <= u64::MAX
        &&& self.error + self.drained_error <= u64::MAX
    }

    /// Every success ever recorded: still pending, or already reported.
    pub open spec fn lifetime_success(self) -> int {
        self.success + self.drained_success
    }

    /// Every error ever recorded: still pending, or already reported.
    pub open spec fn lifetime_error(self) -> int {
        self.error + self.drained_error
    }

    pub fn new() -> (r: Self)
        ensures
            r.wf(),
            r.success == 0,
            r.error == 0,
            r.drained_success == 0,
            r.drained_error == 0,
    {
        Counters { success: 0, error: 0, drained_success: 0, drained_error: 0 }
    }

    /// One finished scenario invocation that succeeded.
    pub fn record_success(&mut self)
        requires
            old(self).wf(),
            old(self).lifetime_success() < u64::MAX,
        ensures
            final(self).wf(),
            final(self).lifetime_success() == old(self).lifetime_success() + 1,
            final(self).success == old(self).success + 1,
            final(self).error == old(self).error,
            final(self).drained_success == old(self).drained_success,
            final(self).drained_error == old(self).drained_error,
    {
        self.success = self.success + 1;
    }

    /// One finished scenario invocation that failed.
    pub fn record_error(&mut self)
        requires
            old(self).wf(),
            old(self).lifetime_error() < u64::MAX,
        ensures
            final(self).wf(),
            final(self).lifetime_error() == old(self).lifetime_error() + 1,
            final(self).error == old(self).error + 1,
            final(self).success == old(self).success,
            final(self).drained_success == old(self).drained_success,
            final(self).drained_error == old(self).drained_error,
    {
        self.error = self.error + 1;
    }

    /// Atomically reads both counters to zero and folds their prior values
    /// into one sample. Nothing is lost and nothing is counted twice: the
    /// lifetime totals are unchanged, and the sample carries exactly what was
    /// pending.
    pub fn take(&mut self, elapsed_millis: u64) -> (r: TpsData)
        requires
            old(self).wf(),
            1 <= elapsed_millis,
            old(self).success + old(self).error <= MAX_SAMPLE_EVENTS,
        ensures
            final(self).wf(),
            r.wf(),
            r.elapsed_millis == elapsed_millis,
            r.success_count == old(self).success,
            r.error_count == old(self).error,
            final(self).success == 0,
            final(self).error == 0,
            final(self).drained_success == old(self).drained_success + old(self).success,
            final(self).drained_error == old(self).drained_error + old(self).error,
            final(self).lifetime_success() == old(self).lifetime_success(),
            final(self).lifetime_error() == old(self).lifetime_error(),
    {
        let data = TpsData {
            elapsed_millis,
            success_count: self.success,
            error_count: self.error,
        };
        self.drained_success = self.drained_success + self.success;
        self.drained_error = self.drained_error + self.error;
        self.success = 0;
        self.error = 0;
        data
    }
}

} // verus!
