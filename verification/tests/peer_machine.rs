use ntp_proto::AcceptSynchronizationError;
use ntp_proto::IgnoreReason;
use ntp_proto::Measurement;
use ntp_proto::NtpDuration;
use ntp_proto::NtpInstant;
use ntp_proto::NtpLeapIndicator;
use ntp_proto::NtpPacket;
use ntp_proto::NtpTimestamp;
use ntp_proto::Peer;
use ntp_proto::PollIntervalLimits;
use ntp_proto::ReferenceId;
use ntp_proto::ResponseError;

const OUR_ID: u32 = 0xABCD_0001;

fn ts(seconds: u64) -> NtpTimestamp {
    NtpTimestamp::from_fixed_int(seconds << 32)
}

fn instant(seconds: u64) -> NtpInstant {
    NtpInstant::new(seconds << 32, ts(seconds))
}

fn test_peer() -> Peer {
    Peer::new(
        ReferenceId { id: OUR_ID },
        PollIntervalLimits::new(4, 10),
        NtpDuration::from_seconds(16),
        NtpDuration::zero(),
        NtpDuration::zero(),
    )
}

fn good_packet(id: u64, t2: NtpTimestamp, t3: NtpTimestamp) -> NtpPacket {
    NtpPacket {
        version: 4,
        leap: NtpLeapIndicator::NoWarning,
        stratum: 2,
        reference_id: ReferenceId { id: 0x1111_2222 },
        root_delay: NtpDuration::zero(),
        root_dispersion: NtpDuration::zero(),
        receive_timestamp: t2,
        transmit_timestamp: t3,
        exchange_id: id,
    }
}

#[test]
fn measurement_matches_closed_form() {
    // T1 = 0 s, T2 = 1 s, T3 = 2 s, T4 = 1 s:
    // offset = ((1 - 0) + (2 - 1)) / 2 = 1 s, delay = (1 - 0) - (2 - 1) = 0
    let packet = good_packet(0, ts(1), ts(2));
    let m = Measurement::from_packet(&packet, ts(0), ts(1), instant(1), NtpDuration::zero());
    assert_eq!(m.offset.duration, 1i64 << 32);
    assert_eq!(m.round_trip_delay.duration, 0);
    assert_eq!(m.dispersion.duration, 0);
}

#[test]
fn measurement_truncates_toward_zero() {
    // T2 - T1 = 0, T3 - T4 = -3 ticks: offset = -3 / 2 truncates to -1
    let packet = good_packet(
        0,
        NtpTimestamp::from_fixed_int(100),
        NtpTimestamp::from_fixed_int(100),
    );
    let m = Measurement::from_packet(
        &packet,
        NtpTimestamp::from_fixed_int(100),
        NtpTimestamp::from_fixed_int(103),
        instant(1),
        NtpDuration::zero(),
    );
    assert_eq!(m.offset.duration, -1);
    assert_eq!(m.round_trip_delay.duration, 3);
}

#[test]
fn negative_delay_is_flagged_as_zero() {
    // remote claims it held the packet longer than the whole round trip
    let packet = good_packet(0, ts(1), ts(5));
    let m = Measurement::from_packet(&packet, ts(0), ts(2), instant(2), NtpDuration::zero());
    assert_eq!(m.round_trip_delay.duration, 0);
}

#[test]
fn root_distance_formula() {
    let mut packet = good_packet(0, ts(1), ts(1));
    packet.root_delay = NtpDuration::from_seconds(2);
    packet.root_dispersion = NtpDuration::from_seconds(1);
    // T1 = 0, T2 = 1, T3 = 1, T4 = 4: delay = 4 s
    let m = Measurement::from_packet(&packet, ts(0), ts(4), instant(4), NtpDuration::zero());
    assert_eq!(m.round_trip_delay.duration, 4i64 << 32);
    // delay/2 + dispersion + root_delay/2 + root_dispersion = 2 + 1 + 1 + 1 = 5 s
    assert_eq!(m.root_distance().duration, 5i64 << 32);
}

#[test]
fn accepted_response_updates_reach_and_snapshot() {
    let mut peer = test_peer();
    let id = peer.poll();
    let packet = good_packet(id, ts(11), ts(11));
    let r = peer.handle_response(true, &packet, ts(10), ts(12), instant(12));
    let update = r.expect("a clean response must be accepted");
    assert!(update.snapshot.usable);
    assert!(peer.reach.is_reachable());
    assert_eq!(update.snapshot.stratum, 2);
    assert_eq!(update.snapshot.offset.duration, 0);
    assert_eq!(update.snapshot.delay.duration, 2i64 << 32);
}

#[test]
fn eight_timeouts_make_peer_unreachable_one_success_restores_it() {
    let mut peer = test_peer();
    // one success first, so the register starts non-zero
    let id = peer.poll();
    peer.handle_response(true, &good_packet(id, ts(1), ts(1)), ts(0), ts(2), instant(2))
        .expect("accepted");
    assert!(peer.reach.is_reachable());

    for _ in 0..8 {
        peer.poll();
        peer.handle_timeout();
    }
    assert!(!peer.reach.is_reachable());
    assert!(!peer.snapshot().usable);

    let id = peer.poll();
    peer.handle_response(
        true,
        &good_packet(id, ts(100), ts(100)),
        ts(99),
        ts(101),
        instant(101),
    )
    .expect("accepted");
    assert!(peer.reach.is_reachable());
    assert!(peer.snapshot().usable);
}

#[test]
fn three_consecutive_timeouts_double_poll_interval() {
    let mut peer = test_peer();
    assert_eq!(peer.poll_interval.exponent, 4);
    for _ in 0..3 {
        peer.poll();
        peer.handle_timeout();
    }
    assert_eq!(peer.poll_interval.exponent, 5);
    for _ in 0..3 {
        peer.poll();
        peer.handle_timeout();
    }
    assert_eq!(peer.poll_interval.exponent, 6);
}

#[test]
fn poll_interval_never_leaves_limits() {
    let mut peer = test_peer();
    // hammer the peer with timeouts: the interval saturates at the maximum
    for _ in 0..64 {
        peer.poll();
        peer.handle_timeout();
        assert!(peer.poll_interval.exponent >= 4 && peer.poll_interval.exponent <= 10);
    }
    assert_eq!(peer.poll_interval.exponent, 10);

    // rate-control ignores push it the same way, never past the maximum
    let mut peer = test_peer();
    let mut when: u64 = 100;
    for _ in 0..16 {
        let id = peer.poll();
        let mut kod = good_packet(id, ts(when), ts(when));
        kod.stratum = 0;
        kod.reference_id = ReferenceId { id: 0x5241_5445 };
        let r = peer.handle_response(true, &kod, ts(when), ts(when + 1), instant(when + 1));
        assert_eq!(r, Err(ResponseError::Ignore(IgnoreReason::RateControl)));
        assert!(peer.poll_interval.exponent >= 4 && peer.poll_interval.exponent <= 10);
        when += 10;
    }
    assert_eq!(peer.poll_interval.exponent, 10);
}

#[test]
fn duplicate_exchange_is_ignored_not_remeasured() {
    let mut peer = test_peer();
    let id = peer.poll();
    let packet = good_packet(id, ts(11), ts(11));
    peer.handle_response(true, &packet, ts(10), ts(12), instant(12))
        .expect("first response accepted");
    let before = peer.snapshot();

    // replaying the very same exchange identifier is a duplicate
    let r = peer.handle_response(true, &packet, ts(10), ts(12), instant(13));
    assert_eq!(r, Err(ResponseError::Ignore(IgnoreReason::DuplicatePacket)));
    assert_eq!(peer.snapshot(), before);

    // so is a response to a request that was never sent
    let stray = good_packet(9999, ts(20), ts(20));
    let r = peer.handle_response(true, &stray, ts(19), ts(21), instant(21));
    assert_eq!(r, Err(ResponseError::Ignore(IgnoreReason::DuplicatePacket)));
}

#[test]
fn version_mismatch_is_ignored() {
    let mut peer = test_peer();
    let id = peer.poll();
    let mut packet = good_packet(id, ts(1), ts(1));
    packet.version = 3;
    let r = peer.handle_response(true, &packet, ts(0), ts(2), instant(2));
    assert_eq!(r, Err(ResponseError::Ignore(IgnoreReason::VersionMismatch)));
}

#[test]
fn too_soon_response_is_ignored() {
    let mut peer = Peer::new(
        ReferenceId { id: OUR_ID },
        PollIntervalLimits::new(4, 10),
        NtpDuration::from_seconds(16),
        NtpDuration::zero(),
        NtpDuration::from_seconds(60),
    );
    let id = peer.poll();
    peer.handle_response(true, &good_packet(id, ts(1), ts(1)), ts(0), ts(2), instant(2))
        .expect("accepted");
    // the next response arrives only three seconds after the last accept
    let id = peer.poll();
    let r = peer.handle_response(true, &good_packet(id, ts(5), ts(5)), ts(4), ts(5), instant(5));
    assert_eq!(r, Err(ResponseError::Ignore(IgnoreReason::TooSoon)));
}

#[test]
fn unsynchronized_server_is_rejected() {
    let mut peer = test_peer();
    let id = peer.poll();
    let mut packet = good_packet(id, ts(1), ts(1));
    packet.leap = NtpLeapIndicator::Unknown;
    let r = peer.handle_response(true, &packet, ts(0), ts(2), instant(2));
    assert_eq!(
        r,
        Err(ResponseError::Reject(
            AcceptSynchronizationError::ServerUnsynchronized
        ))
    );
    assert!(!peer.snapshot().usable);
    assert!(peer.last_measurement.is_some());
}

#[test]
fn invalid_stratum_is_rejected() {
    let mut peer = test_peer();
    let id = peer.poll();
    let mut packet = good_packet(id, ts(1), ts(1));
    packet.stratum = 16;
    let r = peer.handle_response(true, &packet, ts(0), ts(2), instant(2));
    assert_eq!(
        r,
        Err(ResponseError::Reject(
            AcceptSynchronizationError::StratumInvalid
        ))
    );
}

#[test]
fn reference_id_self_match_is_a_loop() {
    let mut peer = test_peer();
    let id = peer.poll();
    let mut packet = good_packet(id, ts(1), ts(1));
    packet.reference_id = ReferenceId { id: OUR_ID };
    let r = peer.handle_response(true, &packet, ts(0), ts(2), instant(2));
    assert_eq!(
        r,
        Err(ResponseError::Reject(
            AcceptSynchronizationError::LoopDetected
        ))
    );
}

#[test]
fn excessive_root_distance_is_rejected() {
    let mut peer = test_peer();
    let id = peer.poll();
    let mut packet = good_packet(id, ts(1), ts(1));
    packet.root_dispersion = NtpDuration::from_seconds(20);
    let r = peer.handle_response(true, &packet, ts(0), ts(2), instant(2));
    assert_eq!(
        r,
        Err(ResponseError::Reject(
            AcceptSynchronizationError::DistanceTooLarge
        ))
    );
}

#[test]
fn authentication_failure_is_rejected() {
    let mut peer = test_peer();
    let id = peer.poll();
    let packet = good_packet(id, ts(1), ts(1));
    let r = peer.handle_response(false, &packet, ts(0), ts(2), instant(2));
    assert_eq!(
        r,
        Err(ResponseError::Reject(
            AcceptSynchronizationError::AuthenticationFailed
        ))
    );
}

#[test]
fn rejection_shifts_a_miss_into_reach() {
    let mut peer = test_peer();
    let id = peer.poll();
    peer.handle_response(true, &good_packet(id, ts(1), ts(1)), ts(0), ts(2), instant(2))
        .expect("accepted");
    assert_eq!(peer.reach.bits, 0b1);
    let id = peer.poll();
    let mut packet = good_packet(id, ts(3), ts(3));
    packet.leap = NtpLeapIndicator::Unknown;
    let _ = peer.handle_response(true, &packet, ts(2), ts(4), instant(4));
    assert_eq!(peer.reach.bits, 0b10);
}
