//! The configuration surface the engine consumes; owned and loaded
//! elsewhere.

use vstd::prelude::*;

use crate::time_types::FrequencyTolerance;
use crate::time_types::NtpDuration;
use crate::time_types::PollIntervalLimits;

verus! {

/// Offsets strictly above this magnitude are corrected by stepping the
/// clock; everything at or below it is slewed.
#[derive(Clone, Copy, Debug, PartialEq, Eq, Structural)]
pub struct StepThreshold {
    pub duration: NtpDuration,
}

/// Everything the selection/combining controller is configured with.
#[derive(Clone, Copy, Debug, PartialEq, Eq, Structural)]
pub struct SystemConfig {
    /// Boundary between slewing and stepping the clock (exclusive).
    pub step_threshold: StepThreshold,
    /// Bound on the frequency-error estimate.
    pub frequency_tolerance: FrequencyTolerance,
    /// A snapshot with no measurement within this window is stale.
    pub staleness_window: NtpDuration,
    /// Fewer survivors than this and no update is emitted.
    pub min_cluster_size: usize,
    /// Survivor offsets must stay this close to the combined offset for
    /// the cluster to count as stable and the polling cadence to tighten.
    pub stability_bound: NtpDuration,
    /// Range the recommended polling cadence must stay in.
    pub poll_limits: PollIntervalLimits,
}

impl SystemConfig {
    /// A valid configuration: non-negative durations, a positive cluster
    /// floor and well-formed poll limits.
    pub open spec fn wf(&self) -> bool {
        &&& self.step_threshold.duration.duration >= 0
        &&& self.frequency_tolerance.wf()
        &&& self.staleness_window.duration >= 0
        &&& self.min_cluster_size >= 1
        &&& self.stability_bound.duration >= 0
        &&& self.poll_limits.wf()
    }
}

} // verus!
