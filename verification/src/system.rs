//! The host's believed synchronization state: an explicit, versioned value
//! owned by the controller and published as an immutable snapshot per
//! evaluation cycle.

use vstd::prelude::*;

use crate::peer::NtpLeapIndicator;
use crate::time_types::NtpDuration;

verus! {

/// The host's current time belief: offset to true time, estimated
/// frequency error, accumulated error bounds and leap state.
#[derive(Clone, Copy, Debug, PartialEq, Eq, Structural)]
pub struct TimeSnapshot {
    /// Believed offset of the local clock from true time.
    pub offset: NtpDuration,
    /// Estimated frequency error of the local clock, in parts per billion.
    pub frequency_ppb: i64,
    /// Upper bound on round-trip delay accumulated to the reference clock.
    pub root_delay: NtpDuration,
    /// Upper bound on total synchronization error to the reference clock.
    pub root_dispersion: NtpDuration,
    /// Leap-second state taken from the selected source.
    pub leap: NtpLeapIndicator,
}

/// The versioned system state the controller publishes; superseded, never
/// mutated in place.
#[derive(Clone, Copy, Debug, PartialEq, Eq, Structural)]
pub struct SystemSnapshot {
    /// Increases by one with every published update.
    pub version: u64,
    pub time: TimeSnapshot,
}

impl SystemSnapshot {
    /// The state before any peer has been combined: zero offset and
    /// frequency, unknown leap state.
    pub open spec fn spec_initial() -> SystemSnapshot {
        SystemSnapshot {
            version: 0,
            time: TimeSnapshot {
                offset: NtpDuration { duration: 0 },
                frequency_ppb: 0,
                root_delay: NtpDuration { duration: 0 },
                root_dispersion: NtpDuration { duration: 0 },
                leap: NtpLeapIndicator::Unknown,
            },
        }
    }

    /// Executable form of `spec_initial`.
    pub fn initial() -> (r: SystemSnapshot)
        ensures
            r == SystemSnapshot::spec_initial(),
    {
        SystemSnapshot {
            version: 0,
            time: TimeSnapshot {
                offset: NtpDuration { duration: 0 },
                frequency_ppb: 0,
                root_delay: NtpDuration { duration: 0 },
                root_dispersion: NtpDuration { duration: 0 },
                leap: NtpLeapIndicator::Unknown,
            },
        }
    }
}

} // verus!
