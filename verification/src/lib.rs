//! Core of a network time-synchronization client: fixed-point time types,
//! per-peer measurement processing with reachability tracking, and the
//! multi-peer selection/combining controller that turns peer estimates into
//! a single clock-correction decision.
//!
//! Everything here is pure computation on plain values; sockets, timers and
//! the system clock live outside the library and hand values in.

pub mod algorithm;
pub mod config;
pub mod peer;
pub mod system;
pub mod time_types;

pub use algorithm::ClockCorrection;
pub use algorithm::DefaultTimeSyncController;
pub use algorithm::StateUpdate;
pub use config::StepThreshold;
pub use config::SystemConfig;
pub use peer::AcceptSynchronizationError;
pub use peer::IgnoreReason;
pub use peer::Measurement;
pub use peer::NtpLeapIndicator;
pub use peer::Peer;
pub use peer::PeerSnapshot;
pub use peer::ResponseError;
pub use peer::Update;
pub use peer::NtpPacket;
pub use peer::Reach;
pub use peer::ReferenceId;
pub use system::SystemSnapshot;
pub use system::TimeSnapshot;
pub use time_types::FrequencyTolerance;
pub use time_types::NtpDuration;
pub use time_types::NtpInstant;
pub use time_types::NtpTimestamp;
pub use time_types::PollInterval;
pub use time_types::PollIntervalLimits;
