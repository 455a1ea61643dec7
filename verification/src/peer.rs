//! One remote time source: measurement extraction from a completed
//! request/response exchange, the acceptance/ignore taxonomy, the 8-bit
//! reachability register, and the per-peer state machine with its adaptive
//! poll interval.

use vstd::prelude::*;

use crate::time_types::clamp_int;
use crate::time_types::div_trunc;
use crate::time_types::inc_exponent;
use crate::time_types::ts_diff;
use crate::time_types::NtpDuration;
use crate::time_types::NtpInstant;
use crate::time_types::NtpTimestamp;
use crate::time_types::PollInterval;
use crate::time_types::PollIntervalLimits;

verus! {

/// The protocol version this engine speaks.
pub const PROTOCOL_VERSION: u8 = 4;

/// The largest stratum a usable source may report.
pub const MAX_STRATUM: u8 = 15;

/// The reference identifier of a rate-control ("kiss-of-death") response:
/// the bytes `RATE` read big-endian.
pub const KISS_RATE_ID: u32 = 0x5241_5445;

/// A 32-bit reference identifier: names the source a server itself
/// synchronizes to, and is how a synchronization loop is detected.
#[derive(Clone, Copy, Debug, PartialEq, Eq, Structural)]
pub struct ReferenceId {
    pub id: u32,
}

/// The leap-second indicator carried by a response; `Unknown` means the
/// server itself is not synchronized.
#[derive(Clone, Copy, Debug, PartialEq, Eq, Structural)]
pub enum NtpLeapIndicator {
    NoWarning,
    Leap61,
    Leap59,
    Unknown,
}

impl NtpLeapIndicator {
    /// A server is synchronized unless it signals `Unknown`.
    pub open spec fn spec_is_synchronized(self) -> bool {
        !(self is Unknown)
    }

    /// Executable form of `spec_is_synchronized`.
    pub fn is_synchronized(self) -> (r: bool)
        ensures
            r == self.spec_is_synchronized(),
    {
        !matches!(self, NtpLeapIndicator::Unknown)
    }
}

/// The reachability shift register after one more missed poll: the bits
/// move up one place (doubling modulo 256) and a zero enters at the
/// bottom.
pub open spec fn reach_fail(bits: u8) -> u8 {
    (((bits as int) * 2) % 256) as u8
}

/// The reachability shift register after one more successful poll: the
/// bits move up one place and a one enters at the bottom.
pub open spec fn reach_succeed(bits: u8) -> u8 {
    (reach_fail(bits) + 1) as u8
}

/// An 8-bit shift register of recent poll outcomes: each completed poll
/// cycle shifts in 1 (a measurement was accepted) or 0 (timeout, loss or
/// rejection).  The peer is reachable while any bit is set.
#[derive(Clone, Copy, Debug, PartialEq, Eq, Structural)]
pub struct Reach {
    pub bits: u8,
}

impl Reach {
    /// A fresh register: no poll has succeeded yet.
    pub fn new() -> (r: Reach)
        ensures
            r.bits == 0,
    {
        Reach { bits: 0 }
    }

    /// Whether any of the last eight polls succeeded.
    pub open spec fn spec_is_reachable(self) -> bool {
        self.bits != 0
    }

    /// Executable form of `spec_is_reachable`.
    pub fn is_reachable(self) -> (r: bool)
        ensures
            r == self.spec_is_reachable(),
    {
        self.bits != 0
    }

    /// Record a successful poll.
    pub fn succeed(&mut self)
        ensures
            final(self).bits == reach_succeed(old(self).bits),
    {
        let doubled: u16 = (self.bits as u16) * 2;
        let shifted: u16 = doubled % 256;
        self.bits = (shifted as u8) + 1;
    }

    /// Record a missed poll.
    pub fn fail(&mut self)
        ensures
            final(self).bits == reach_fail(old(self).bits),
    {
        let doubled: u16 = (self.bits as u16) * 2;
        self.bits = (doubled % 256) as u8;
    }
}

/// After eight consecutive missed polls the register is all zeroes, so the
/// peer reports unreachable no matter what its history was.
pub proof fn lemma_unreachable_after_eight_misses(bits: u8)
    ensures
        !(Reach {
            bits: reach_fail(
                reach_fail(
                    reach_fail(
                        reach_fail(reach_fail(reach_fail(reach_fail(reach_fail(bits))))),
                    ),
                ),
            ),
        }).spec_is_reachable(),
{
    // each miss doubles the register modulo 256, so eight misses multiply
    // it by 256, which vanishes modulo 256
    let b = bits as int;
    vstd::arithmetic::div_mod::lemma_mul_mod_noop_right(2, 2 * b, 256);
    vstd::arithmetic::div_mod::lemma_mul_mod_noop_right(2, 4 * b, 256);
    vstd::arithmetic::div_mod::lemma_mul_mod_noop_right(2, 8 * b, 256);
    vstd::arithmetic::div_mod::lemma_mul_mod_noop_right(2, 16 * b, 256);
    vstd::arithmetic::div_mod::lemma_mul_mod_noop_right(2, 32 * b, 256);
    vstd::arithmetic::div_mod::lemma_mul_mod_noop_right(2, 64 * b, 256);
    vstd::arithmetic::div_mod::lemma_mul_mod_noop_right(2, 128 * b, 256);
    vstd::arithmetic::div_mod::lemma_mod_multiples_basic(b, 256);
}

/// One successful poll makes any peer reachable again, whatever came
/// before.
pub proof fn lemma_reachable_after_success(bits: u8)
    ensures
        (Reach { bits: reach_succeed(bits) }).spec_is_reachable(),
{
}

/// The response payload of one exchange, after authentication and byte
/// decoding (both external): the remote metadata plus the remote receive
/// and transmit timestamps, matched to its request by an opaque exchange
/// identifier.
#[derive(Clone, Copy, Debug, PartialEq, Eq, Structural)]
pub struct NtpPacket {
    pub version: u8,
    pub leap: NtpLeapIndicator,
    pub stratum: u8,
    pub reference_id: ReferenceId,
    pub root_delay: NtpDuration,
    pub root_dispersion: NtpDuration,
    /// When the remote received our request (T2).
    pub receive_timestamp: NtpTimestamp,
    /// When the remote sent its response (T3).
    pub transmit_timestamp: NtpTimestamp,
    /// Identifier of the request this response answers.
    pub exchange_id: u64,
}

/// A negative duration read from the wire is treated as zero.
pub open spec fn sanitize_nonneg(d: int) -> int {
    if d < 0 {
        0
    } else {
        d
    }
}

/// The offset estimate of one exchange:
/// `((T2 - T1) + (T3 - T4)) / 2`, over era-wrapping differences,
/// truncated toward zero.
pub open spec fn offset_spec(t1: u64, t2: u64, t3: u64, t4: u64) -> int {
    div_trunc(ts_diff(t2, t1) + ts_diff(t3, t4), 2)
}

/// The round-trip delay of one exchange:
/// `(T4 - T1) - (T3 - T2)`, clamped into `[0, i64::MAX]`; a negative raw
/// value indicates a timing anomaly and is reported as zero rather than
/// used.
pub open spec fn delay_spec(t1: u64, t2: u64, t3: u64, t4: u64) -> int {
    clamp_int(ts_diff(t4, t1) - ts_diff(t3, t2), 0, i64::MAX as int)
}

/// The dispersion of one exchange: the local clock-reading uncertainty
/// plus the remote-reported root dispersion (negatives sanitized),
/// saturating at the largest representable duration.
pub open spec fn dispersion_spec(precision: int, root_dispersion: int) -> int {
    clamp_int(sanitize_nonneg(precision) + sanitize_nonneg(root_dispersion), 0, i64::MAX as int)
}

/// One offset/delay/dispersion estimate from a completed exchange,
/// together with the remote metadata of the response it came from.
#[derive(Clone, Copy, Debug, PartialEq, Eq, Structural)]
pub struct Measurement {
    pub offset: NtpDuration,
    pub round_trip_delay: NtpDuration,
    pub dispersion: NtpDuration,
    /// The local clock reading at which the response arrived.
    pub local_time: NtpInstant,
    pub stratum: u8,
    pub leap: NtpLeapIndicator,
    pub reference_id: ReferenceId,
    pub root_delay: NtpDuration,
    pub root_dispersion: NtpDuration,
}

/// The measurement extracted from a matched exchange: T1 and T4 are the
/// local send and receive timestamps, T2 and T3 come from the packet.
pub open spec fn spec_measurement(
    packet: NtpPacket,
    t1: NtpTimestamp,
    t4: NtpTimestamp,
    local_time: NtpInstant,
    precision: NtpDuration,
) -> Measurement {
    Measurement {
        offset: NtpDuration {
            duration: offset_spec(
                t1.timestamp,
                packet.receive_timestamp.timestamp,
                packet.transmit_timestamp.timestamp,
                t4.timestamp,
            ) as i64,
        },
        round_trip_delay: NtpDuration {
            duration: delay_spec(
                t1.timestamp,
                packet.receive_timestamp.timestamp,
                packet.transmit_timestamp.timestamp,
                t4.timestamp,
            ) as i64,
        },
        dispersion: NtpDuration {
            duration: dispersion_spec(
                precision.duration as int,
                packet.root_dispersion.duration as int,
            ) as i64,
        },
        local_time,
        stratum: packet.stratum,
        leap: packet.leap,
        reference_id: packet.reference_id,
        root_delay: packet.root_delay,
        root_dispersion: packet.root_dispersion,
    }
}

/// The root distance of a measurement: an upper bound on its total error,
/// `delay/2 + dispersion + root_delay/2 + root_dispersion`, negatives
/// sanitized and the sum saturating at the largest representable duration.
pub open spec fn root_distance_spec(m: Measurement) -> int {
    clamp_int(
        div_trunc(sanitize_nonneg(m.round_trip_delay.duration as int), 2)
            + sanitize_nonneg(m.dispersion.duration as int)
            + div_trunc(sanitize_nonneg(m.root_delay.duration as int), 2)
            + sanitize_nonneg(m.root_dispersion.duration as int),
        0,
        i64::MAX as int,
    )
}

impl Measurement {
    /// Extract the measurement of a matched exchange from its timestamp
    /// quadruple and the response's metadata.
    pub fn from_packet(
        packet: &NtpPacket,
        t1: NtpTimestamp,
        t4: NtpTimestamp,
        local_time: NtpInstant,
        precision: NtpDuration,
    ) -> (r: Measurement)
        ensures
            r == spec_measurement(*packet, t1, t4, local_time, precision),
    {
        let d21: NtpDuration = packet.receive_timestamp.sub(t1);
        let d34: NtpDuration = packet.transmit_timestamp.sub(t4);
        let d41: NtpDuration = t4.sub(t1);
        let d32: NtpDuration = packet.transmit_timestamp.sub(packet.receive_timestamp);

        let offset_sum: i128 = (d21.duration as i128) + (d34.duration as i128);
        let offset: i64 = if offset_sum >= 0 {
            (((offset_sum as u128) / 2u128) as i128) as i64
        } else {
            (-((((-offset_sum) as u128) / 2u128) as i128)) as i64
        };

        let delay_raw: i128 = (d41.duration as i128) - (d32.duration as i128);
        let delay: i64 = if delay_raw < 0 {
            0
        } else if delay_raw > i64::MAX as i128 {
            i64::MAX
        } else {
            delay_raw as i64
        };

        let prec: i128 = if precision.duration < 0 {
            0
        } else {
            precision.duration as i128
        };
        let rdisp: i128 = if packet.root_dispersion.duration < 0 {
            0
        } else {
            packet.root_dispersion.duration as i128
        };
        let disp_sum: i128 = prec + rdisp;
        let dispersion: i64 = if disp_sum > i64::MAX as i128 {
            i64::MAX
        } else {
            disp_sum as i64
        };

        Measurement {
            offset: NtpDuration { duration: offset },
            round_trip_delay: NtpDuration { duration: delay },
            dispersion: NtpDuration { duration: dispersion },
            local_time,
            stratum: packet.stratum,
            leap: packet.leap,
            reference_id: packet.reference_id,
            root_delay: packet.root_delay,
            root_dispersion: packet.root_dispersion,
        }
    }

    /// The root distance of this measurement.
    pub fn root_distance(&self) -> (r: NtpDuration)
        ensures
            r.duration == root_distance_spec(*self),
    {
        let delay: u128 = if self.round_trip_delay.duration < 0 {
            0
        } else {
            self.round_trip_delay.duration as u128
        };
        let disp: u128 = if self.dispersion.duration < 0 {
            0
        } else {
            self.dispersion.duration as u128
        };
        let rdelay: u128 = if self.root_delay.duration < 0 {
            0
        } else {
            self.root_delay.duration as u128
        };
        let rdisp: u128 = if self.root_dispersion.duration < 0 {
            0
        } else {
            self.root_dispersion.duration as u128
        };
        let total: u128 = delay / 2 + disp + rdelay / 2 + rdisp;
        if total > i64::MAX as u128 {
            NtpDuration { duration: i64::MAX }
        } else {
            NtpDuration { duration: total as i64 }
        }
    }
}

/// The era-wrapping timestamp differences reduce to plain subtraction when
/// both orderings are close: this is what makes the closed-form reasoning
/// about an exchange possible.
pub proof fn lemma_ts_diff_small(a: u64, b: u64)
    requires
        (a >= b && a - b <= i64::MAX) || (b >= a && b - a <= i64::MAX),
    ensures
        ts_diff(a, b) == a - b,
{
}

/// For a valid exchange with `T1 <= T2 <= T3 <= T4` whose whole span fits
/// the signed range (it does not cross more than half an era), the
/// extracted offset and round-trip delay equal the classic four-timestamp
/// closed forms exactly, and no clamping takes place on the delay.
pub proof fn lemma_measurement_closed_form(
    packet: NtpPacket,
    t1: NtpTimestamp,
    t4: NtpTimestamp,
    local_time: NtpInstant,
    precision: NtpDuration,
)
    requires
        t1.timestamp <= packet.receive_timestamp.timestamp,
        packet.receive_timestamp.timestamp <= packet.transmit_timestamp.timestamp,
        packet.transmit_timestamp.timestamp <= t4.timestamp,
        t4.timestamp - t1.timestamp <= i64::MAX,
    ensures
        ({
            let m = spec_measurement(packet, t1, t4, local_time, precision);
            let g1 = t1.timestamp as int;
            let g2 = packet.receive_timestamp.timestamp as int;
            let g3 = packet.transmit_timestamp.timestamp as int;
            let g4 = t4.timestamp as int;
            &&& m.offset.duration == div_trunc((g2 - g1) + (g3 - g4), 2)
            &&& m.round_trip_delay.duration == (g4 - g1) - (g3 - g2)
            &&& (g4 - g1) - (g3 - g2) >= 0
        }),
{
    let g1 = t1.timestamp;
    let g2 = packet.receive_timestamp.timestamp;
    let g3 = packet.transmit_timestamp.timestamp;
    let g4 = t4.timestamp;
    lemma_ts_diff_small(g2, g1);
    lemma_ts_diff_small(g3, g4);
    lemma_ts_diff_small(g4, g1);
    lemma_ts_diff_small(g3, g2);
}

/// A measurement exists but is untrustworthy; the peer's current cycle is
/// rejected and the reason kept for the operator.
#[derive(Clone, Copy, Debug, PartialEq, Eq, Structural)]
pub enum AcceptSynchronizationError {
    ServerUnsynchronized,
    LoopDetected,
    DistanceTooLarge,
    StratumInvalid,
    AuthenticationFailed,
}

/// The response carried no new information; nothing is held against the
/// peer.
#[derive(Clone, Copy, Debug, PartialEq, Eq, Structural)]
pub enum IgnoreReason {
    DuplicatePacket,
    RateControl,
    VersionMismatch,
    TooSoon,
}

/// Why a response produced no measurement: either a trust judgment about
/// the source, or an event to pass over.
#[derive(Clone, Copy, Debug, PartialEq, Eq, Structural)]
pub enum ResponseError {
    Reject(AcceptSynchronizationError),
    Ignore(IgnoreReason),
}

/// Where the peer stands in its poll cycle.  The transient outcomes of a
/// cycle — measured, timed out, rejected, ignored — are the results of
/// `handle_response` and `handle_timeout`; both return the peer to
/// `WaitingToSend`, so only the two resting states are represented.
#[derive(Clone, Copy, Debug, PartialEq, Eq, Structural)]
pub enum PeerState {
    /// Ready to emit the next request.
    WaitingToSend,
    /// A request is outstanding; only a response carrying this exchange
    /// identifier completes it.
    AwaitingResponse { expected_id: u64 },
}

/// The peer's externally visible state at a point in time, read by the
/// controller.  Superseded, never mutated.
#[derive(Clone, Copy, Debug, PartialEq, Eq, Structural)]
pub struct PeerSnapshot {
    pub offset: NtpDuration,
    pub delay: NtpDuration,
    pub root_distance: NtpDuration,
    /// The remote-reported root delay of the last measurement.
    pub root_delay: NtpDuration,
    /// The remote-reported root dispersion of the last measurement.
    pub root_dispersion: NtpDuration,
    pub stratum: u8,
    pub leap: NtpLeapIndicator,
    pub reach: Reach,
    pub poll_interval: PollInterval,
    /// Local clock reading of the last accepted or rejected measurement.
    pub last_update: NtpInstant,
    /// False while the peer is unreachable, has produced no measurement
    /// yet, or had its latest measurement rejected.
    pub usable: bool,
}

/// What a successfully handled response hands back: the peer's fresh
/// snapshot.
#[derive(Clone, Copy, Debug, PartialEq, Eq, Structural)]
pub struct Update {
    pub snapshot: PeerSnapshot,
}

/// The snapshot a peer publishes: built from its last (possibly rejected)
/// measurement and its registers.
pub open spec fn spec_snapshot(peer: Peer) -> PeerSnapshot {
    match peer.last_measurement {
        Some(m) => PeerSnapshot {
            offset: m.offset,
            delay: m.round_trip_delay,
            root_distance: NtpDuration { duration: root_distance_spec(m) as i64 },
            root_delay: m.root_delay,
            root_dispersion: m.root_dispersion,
            stratum: m.stratum,
            leap: m.leap,
            reach: peer.reach,
            poll_interval: peer.poll_interval,
            last_update: m.local_time,
            usable: peer.reach.bits != 0 && peer.last_rejection is None,
        },
        None => PeerSnapshot {
            offset: NtpDuration { duration: 0 },
            delay: NtpDuration { duration: 0 },
            root_distance: NtpDuration { duration: 0 },
            root_delay: NtpDuration { duration: 0 },
            root_dispersion: NtpDuration { duration: 0 },
            stratum: 0,
            leap: NtpLeapIndicator::Unknown,
            reach: peer.reach,
            poll_interval: peer.poll_interval,
            last_update: NtpInstant { monotonic: 0, wall: NtpTimestamp { timestamp: 0 } },
            usable: false,
        },
    }
}

/// The ignore classification of a response, checked before any trust
/// judgment: replays and unmatched responses first (so a duplicate can
/// never resurface as a rejection or a measurement), then version
/// mismatches, rate control and the anti-flood guard.
pub open spec fn response_ignore(peer: Peer, packet: NtpPacket, local_time: NtpInstant) -> Option<
    IgnoreReason,
> {
    if peer.last_handled == Some(packet.exchange_id) {
        Some(IgnoreReason::DuplicatePacket)
    } else if !(peer.state == (PeerState::AwaitingResponse { expected_id: packet.exchange_id })) {
        Some(IgnoreReason::DuplicatePacket)
    } else if packet.version != PROTOCOL_VERSION {
        Some(IgnoreReason::VersionMismatch)
    } else if packet.stratum == 0 && packet.reference_id.id == KISS_RATE_ID {
        Some(IgnoreReason::RateControl)
    } else if match peer.last_accept {
        Some(prev) => clamp_int(local_time.monotonic - prev.monotonic, 0, i64::MAX as int)
            < peer.min_poll_gap.duration,
        None => false,
    } {
        Some(IgnoreReason::TooSoon)
    } else {
        None
    }
}

/// The trust judgment on a response that was not ignored, in order:
/// authentication, remote synchronization state, stratum validity, loop
/// detection by reference-id self-match, root-distance ceiling.
pub open spec fn response_reject(
    peer: Peer,
    auth_ok: bool,
    packet: NtpPacket,
    m: Measurement,
) -> Option<AcceptSynchronizationError> {
    if !auth_ok {
        Some(AcceptSynchronizationError::AuthenticationFailed)
    } else if !packet.leap.spec_is_synchronized() {
        Some(AcceptSynchronizationError::ServerUnsynchronized)
    } else if packet.stratum == 0 || packet.stratum > MAX_STRATUM {
        Some(AcceptSynchronizationError::StratumInvalid)
    } else if packet.reference_id.id == peer.our_id.id {
        Some(AcceptSynchronizationError::LoopDetected)
    } else if root_distance_spec(m) > peer.distance_ceiling.duration {
        Some(AcceptSynchronizationError::DistanceTooLarge)
    } else {
        None
    }
}

/// The complete disposition of one response: the measurement it would
/// yield, or the reason it yields none.
pub open spec fn response_disposition(
    peer: Peer,
    auth_ok: bool,
    packet: NtpPacket,
    t1: NtpTimestamp,
    t4: NtpTimestamp,
    local_time: NtpInstant,
) -> Result<Measurement, ResponseError> {
    let m = spec_measurement(packet, t1, t4, local_time, peer.precision);
    match response_ignore(peer, packet, local_time) {
        Some(i) => Err(ResponseError::Ignore(i)),
        None => match response_reject(peer, auth_ok, packet, m) {
            Some(e) => Err(ResponseError::Reject(e)),
            None => Ok(m),
        },
    }
}

/// Replaying an exchange identifier the peer has already processed is
/// ignored as a duplicate — it can never yield a second measurement, nor
/// even a rejection.
pub proof fn lemma_duplicate_exchange_ignored(
    peer: Peer,
    auth_ok: bool,
    packet: NtpPacket,
    t1: NtpTimestamp,
    t4: NtpTimestamp,
    local_time: NtpInstant,
)
    requires
        peer.last_handled == Some(packet.exchange_id),
    ensures
        response_disposition(peer, auth_ok, packet, t1, t4, local_time) == Err::<
            Measurement,
            ResponseError,
        >(ResponseError::Ignore(IgnoreReason::DuplicatePacket)),
{
}

/// One remote source's whole history: reach register, adaptive poll
/// interval, last measurement and the configuration it is judged against.
#[derive(Clone, Copy, Debug)]
pub struct Peer {
    pub state: PeerState,
    /// The last exchange identifier a response was processed for.
    pub last_handled: Option<u64>,
    pub reach: Reach,
    pub poll_interval: PollInterval,
    pub limits: PollIntervalLimits,
    /// Timeouts since the last completed exchange; the third in a row
    /// doubles the poll interval.
    pub consecutive_timeouts: u8,
    /// The latest measurement, kept also when it was rejected so the
    /// operator can observe why the peer is excluded.
    pub last_measurement: Option<Measurement>,
    /// Why the latest measurement was rejected, if it was.
    pub last_rejection: Option<AcceptSynchronizationError>,
    /// When the last accepted measurement arrived (anti-flood guard).
    pub last_accept: Option<NtpInstant>,
    /// This host's own reference identifier, for loop detection.
    pub our_id: ReferenceId,
    /// Ceiling on an acceptable measurement's root distance.
    pub distance_ceiling: NtpDuration,
    /// Local clock-reading uncertainty folded into each dispersion.
    pub precision: NtpDuration,
    /// Minimum spacing between accepted responses.
    pub min_poll_gap: NtpDuration,
    /// Identifier the next request will carry.
    pub next_id: u64,
}

impl Peer {
    /// A well-formed peer: its poll interval sits inside well-formed
    /// limits, the timeout counter has not yet reached the backoff point,
    /// and the configured durations are non-negative.
    pub open spec fn wf(&self) -> bool {
        &&& self.limits.wf()
        &&& self.poll_interval.in_limits(self.limits)
        &&& self.consecutive_timeouts < 3
        &&& self.precision.duration >= 0
        &&& self.distance_ceiling.duration >= 0
        &&& self.min_poll_gap.duration >= 0
    }

    /// Whether a response arriving at `local_time` keeps measurement
    /// history monotone: stored local times never decrease.
    pub open spec fn history_allows(&self, local_time: NtpInstant) -> bool {
        match self.last_measurement {
            Some(m) => m.local_time.monotonic <= local_time.monotonic,
            None => true,
        }
    }

    /// A fresh peer, ready to send its first request.
    pub fn new(
        our_id: ReferenceId,
        limits: PollIntervalLimits,
        distance_ceiling: NtpDuration,
        precision: NtpDuration,
        min_poll_gap: NtpDuration,
    ) -> (r: Peer)
        requires
            limits.wf(),
            precision.duration >= 0,
            distance_ceiling.duration >= 0,
            min_poll_gap.duration >= 0,
        ensures
            r.wf(),
            r.state is WaitingToSend,
            r.last_handled is None,
            r.reach.bits == 0,
            r.poll_interval == limits.min,
            r.limits == limits,
            r.consecutive_timeouts == 0,
            r.last_measurement is None,
            r.last_rejection is None,
            r.last_accept is None,
            r.our_id == our_id,
            r.distance_ceiling == distance_ceiling,
            r.precision == precision,
            r.min_poll_gap == min_poll_gap,
            r.next_id == 0,
    {
        Peer {
            state: PeerState::WaitingToSend,
            last_handled: None,
            reach: Reach { bits: 0 },
            poll_interval: limits.min,
            limits,
            consecutive_timeouts: 0,
            last_measurement: None,
            last_rejection: None,
            last_accept: None,
            our_id,
            distance_ceiling,
            precision,
            min_poll_gap,
            next_id: 0,
        }
    }

    /// Emit the next request: hands the caller the exchange identifier to
    /// send and awaits the matching response.  The caller arms a timeout
    /// equal to the current poll interval.
    pub fn poll(&mut self) -> (r: u64)
        requires
            old(self).wf(),
            old(self).state is WaitingToSend,
        ensures
            final(self).wf(),
            r == old(self).next_id,
            final(self).state == (PeerState::AwaitingResponse { expected_id: r }),
            final(self).next_id == vstd::wrapping::u64_specs::wrapping_add(old(self).next_id, 1),
            final(self).last_handled == old(self).last_handled,
            final(self).reach == old(self).reach,
            final(self).poll_interval == old(self).poll_interval,
            final(self).limits == old(self).limits,
            final(self).consecutive_timeouts == old(self).consecutive_timeouts,
            final(self).last_measurement == old(self).last_measurement,
            final(self).last_rejection == old(self).last_rejection,
            final(self).last_accept == old(self).last_accept,
            final(self).our_id == old(self).our_id,
            final(self).distance_ceiling == old(self).distance_ceiling,
            final(self).precision == old(self).precision,
            final(self).min_poll_gap == old(self).min_poll_gap,
    {
        let id: u64 = self.next_id;
        self.next_id = self.next_id.wrapping_add(1);
        self.state = PeerState::AwaitingResponse { expected_id: id };
        id
    }

    /// The outstanding exchange timed out: record the miss, return to the
    /// sending state, and after the third consecutive timeout double the
    /// poll interval (bounded by the limits) as backoff against an
    /// unresponsive source.
    pub fn handle_timeout(&mut self)
        requires
            old(self).wf(),
            old(self).state is AwaitingResponse,
        ensures
            final(self).wf(),
            final(self).state is WaitingToSend,
            final(self).reach.bits == reach_fail(old(self).reach.bits),
            (if old(self).consecutive_timeouts == 2 {
                final(self).consecutive_timeouts == 0 && final(self).poll_interval.exponent
                    == inc_exponent(old(self).poll_interval.exponent, old(self).limits)
            } else {
                final(self).consecutive_timeouts == old(self).consecutive_timeouts + 1
                    && final(self).poll_interval == old(self).poll_interval
            }),
            final(self).last_handled == old(self).last_handled,
            final(self).limits == old(self).limits,
            final(self).last_measurement == old(self).last_measurement,
            final(self).last_rejection == old(self).last_rejection,
            final(self).last_accept == old(self).last_accept,
            final(self).our_id == old(self).our_id,
            final(self).distance_ceiling == old(self).distance_ceiling,
            final(self).precision == old(self).precision,
            final(self).min_poll_gap == old(self).min_poll_gap,
            final(self).next_id == old(self).next_id,
    {
        self.state = PeerState::WaitingToSend;
        self.reach.fail();
        if self.consecutive_timeouts == 2 {
            self.consecutive_timeouts = 0;
            self.poll_interval = self.poll_interval.inc(self.limits);
        } else {
            self.consecutive_timeouts = self.consecutive_timeouts + 1;
        }
    }

    /// Record a rejected measurement: the exchange completes, a miss is
    /// shifted into the reach register, and the measurement with its
    /// rejection reason is kept for diagnostics.
    fn register_reject(&mut self, error: AcceptSynchronizationError, m: Measurement, id: u64)
        requires
            old(self).wf(),
        ensures
            final(self).wf(),
            final(self).state is WaitingToSend,
            final(self).last_handled == Some(id),
            final(self).reach.bits == reach_fail(old(self).reach.bits),
            final(self).consecutive_timeouts == 0,
            final(self).last_measurement == Some(m),
            final(self).last_rejection == Some(error),
            final(self).last_accept == old(self).last_accept,
            final(self).poll_interval == old(self).poll_interval,
            final(self).limits == old(self).limits,
            final(self).our_id == old(self).our_id,
            final(self).distance_ceiling == old(self).distance_ceiling,
            final(self).precision == old(self).precision,
            final(self).min_poll_gap == old(self).min_poll_gap,
            final(self).next_id == old(self).next_id,
    {
        self.state = PeerState::WaitingToSend;
        self.last_handled = Some(id);
        self.reach.fail();
        self.consecutive_timeouts = 0;
        self.last_measurement = Some(m);
        self.last_rejection = Some(error);
    }

    /// Process the response of an exchange.  `auth_ok` is the verdict of
    /// the external authentication collaborator on the raw bytes; `t1` and
    /// `t4` are the local send and receive timestamps the transport
    /// captured; `local_time` is the local clock reading at arrival.
    ///
    /// The result and every state change follow `response_disposition`:
    /// an ignored response leaves the peer alone (except rate control,
    /// which completes the exchange and forces the poll interval upward);
    /// a rejected one completes the exchange, shifts a miss into the reach
    /// register and keeps the measurement for diagnostics; an accepted one
    /// shifts in a success, stores the measurement and hands back the new
    /// snapshot.
    pub fn handle_response(
        &mut self,
        auth_ok: bool,
        packet: &NtpPacket,
        t1: NtpTimestamp,
        t4: NtpTimestamp,
        local_time: NtpInstant,
    ) -> (r: Result<Update, ResponseError>)
        requires
            old(self).wf(),
            old(self).history_allows(local_time),
        ensures
            final(self).wf(),
            final(self).limits == old(self).limits,
            final(self).our_id == old(self).our_id,
            final(self).distance_ceiling == old(self).distance_ceiling,
            final(self).precision == old(self).precision,
            final(self).min_poll_gap == old(self).min_poll_gap,
            final(self).next_id == old(self).next_id,
            ({
                let disp = response_disposition(
                    *old(self),
                    auth_ok,
                    *packet,
                    t1,
                    t4,
                    local_time,
                );
                match r {
                    Ok(u) => {
                        &&& disp == Ok::<Measurement, ResponseError>(
                            spec_measurement(*packet, t1, t4, local_time, old(self).precision),
                        )
                        &&& final(self).state is WaitingToSend
                        &&& final(self).last_handled == Some(packet.exchange_id)
                        &&& final(self).reach.bits == reach_succeed(old(self).reach.bits)
                        &&& final(self).consecutive_timeouts == 0
                        &&& final(self).last_measurement == Some(
                            spec_measurement(*packet, t1, t4, local_time, old(self).precision),
                        )
                        &&& final(self).last_rejection is None
                        &&& final(self).last_accept == Some(local_time)
                        &&& final(self).poll_interval == old(self).poll_interval
                        &&& u.snapshot == spec_snapshot(*final(self))
                    },
                    Err(e) => {
                        &&& disp == Err::<Measurement, ResponseError>(e)
                        &&& (match e {
                            ResponseError::Ignore(IgnoreReason::RateControl) => {
                                &&& final(self).state is WaitingToSend
                                &&& final(self).last_handled == Some(packet.exchange_id)
                                &&& final(self).poll_interval.exponent == inc_exponent(
                                    old(self).poll_interval.exponent,
                                    old(self).limits,
                                )
                                &&& final(self).reach == old(self).reach
                                &&& final(self).consecutive_timeouts
                                    == old(self).consecutive_timeouts
                                &&& final(self).last_measurement == old(self).last_measurement
                                &&& final(self).last_rejection == old(self).last_rejection
                                &&& final(self).last_accept == old(self).last_accept
                            },
                            ResponseError::Ignore(_) => *final(self) == *old(self),
                            ResponseError::Reject(err) => {
                                &&& final(self).state is WaitingToSend
                                &&& final(self).last_handled == Some(packet.exchange_id)
                                &&& final(self).reach.bits == reach_fail(old(self).reach.bits)
                                &&& final(self).consecutive_timeouts == 0
                                &&& final(self).last_measurement == Some(
                                    spec_measurement(
                                        *packet,
                                        t1,
                                        t4,
                                        local_time,
                                        old(self).precision,
                                    ),
                                )
                                &&& final(self).last_rejection == Some(err)
                                &&& final(self).last_accept == old(self).last_accept
                                &&& final(self).poll_interval == old(self).poll_interval
                            },
                        })
                    },
                }
            }),
    {
        if let Some(id) = self.last_handled {
            if id == packet.exchange_id {
                return Err(ResponseError::Ignore(IgnoreReason::DuplicatePacket));
            }
        }
        let outstanding: bool = match self.state {
            PeerState::AwaitingResponse { expected_id } => expected_id == packet.exchange_id,
            PeerState::WaitingToSend => false,
        };
        if !outstanding {
            return Err(ResponseError::Ignore(IgnoreReason::DuplicatePacket));
        }
        if packet.version != PROTOCOL_VERSION {
            return Err(ResponseError::Ignore(IgnoreReason::VersionMismatch));
        }
        if packet.stratum == 0 && packet.reference_id.id == KISS_RATE_ID {
            self.state = PeerState::WaitingToSend;
            self.last_handled = Some(packet.exchange_id);
            self.poll_interval = self.poll_interval.inc(self.limits);
            return Err(ResponseError::Ignore(IgnoreReason::RateControl));
        }
        if let Some(prev) = self.last_accept {
            let gap: NtpDuration = local_time.elapsed_since(prev);
            if gap.duration < self.min_poll_gap.duration {
                return Err(ResponseError::Ignore(IgnoreReason::TooSoon));
            }
        }

        let m: Measurement = Measurement::from_packet(packet, t1, t4, local_time, self.precision);

        if !auth_ok {
            self.register_reject(
                AcceptSynchronizationError::AuthenticationFailed,
                m,
                packet.exchange_id,
            );
            return Err(ResponseError::Reject(AcceptSynchronizationError::AuthenticationFailed));
        }
        if !packet.leap.is_synchronized() {
            self.register_reject(
                AcceptSynchronizationError::ServerUnsynchronized,
                m,
                packet.exchange_id,
            );
            return Err(ResponseError::Reject(AcceptSynchronizationError::ServerUnsynchronized));
        }
        if packet.stratum == 0 || packet.stratum > MAX_STRATUM {
            self.register_reject(
                AcceptSynchronizationError::StratumInvalid,
                m,
                packet.exchange_id,
            );
            return Err(ResponseError::Reject(AcceptSynchronizationError::StratumInvalid));
        }
        if packet.reference_id.id == self.our_id.id {
            self.register_reject(AcceptSynchronizationError::LoopDetected, m, packet.exchange_id);
            return Err(ResponseError::Reject(AcceptSynchronizationError::LoopDetected));
        }
        let rd: NtpDuration = m.root_distance();
        if rd.duration > self.distance_ceiling.duration {
            self.register_reject(
                AcceptSynchronizationError::DistanceTooLarge,
                m,
                packet.exchange_id,
            );
            return Err(ResponseError::Reject(AcceptSynchronizationError::DistanceTooLarge));
        }

        self.state = PeerState::WaitingToSend;
        self.last_handled = Some(packet.exchange_id);
        self.reach.succeed();
        self.consecutive_timeouts = 0;
        self.last_measurement = Some(m);
        self.last_rejection = None;
        self.last_accept = Some(local_time);
        let snapshot: PeerSnapshot = self.snapshot();
        Ok(Update { snapshot })
    }

    /// The peer's current snapshot: a pure read.
    pub fn snapshot(&self) -> (r: PeerSnapshot)
        ensures
            r == spec_snapshot(*self),
    {
        match self.last_measurement {
            Some(m) => {
                let rd: NtpDuration = m.root_distance();
                PeerSnapshot {
                    offset: m.offset,
                    delay: m.round_trip_delay,
                    root_distance: rd,
                    root_delay: m.root_delay,
                    root_dispersion: m.root_dispersion,
                    stratum: m.stratum,
                    leap: m.leap,
                    reach: self.reach,
                    poll_interval: self.poll_interval,
                    last_update: m.local_time,
                    usable: self.reach.is_reachable() && self.last_rejection.is_none(),
                }
            },
            None => PeerSnapshot {
                offset: NtpDuration { duration: 0 },
                delay: NtpDuration { duration: 0 },
                root_distance: NtpDuration { duration: 0 },
                root_delay: NtpDuration { duration: 0 },
                root_dispersion: NtpDuration { duration: 0 },
                stratum: 0,
                leap: NtpLeapIndicator::Unknown,
                reach: self.reach,
                poll_interval: self.poll_interval,
                last_update: NtpInstant {
                    monotonic: 0,
                    wall: NtpTimestamp { timestamp: 0 },
                },
                usable: false,
            },
        }
    }
}

/// A well-formed peer's poll interval lies inside its configured limits;
/// since `poll`, `handle_timeout` and `handle_response` all take a
/// well-formed peer to a well-formed peer, no run of timeouts or
/// rate-control ignores ever pushes the interval out of range.
pub proof fn lemma_poll_interval_bounded(peer: Peer)
    requires
        peer.wf(),
    ensures
        peer.limits.min.exponent <= peer.poll_interval.exponent,
        peer.poll_interval.exponent <= peer.limits.max.exponent,
{
}

} // verus!
