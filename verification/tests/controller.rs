use ntp_proto::ClockCorrection;
use ntp_proto::DefaultTimeSyncController;
use ntp_proto::FrequencyTolerance;
use ntp_proto::NtpDuration;
use ntp_proto::NtpInstant;
use ntp_proto::NtpLeapIndicator;
use ntp_proto::NtpTimestamp;
use ntp_proto::PeerSnapshot;
use ntp_proto::PollInterval;
use ntp_proto::PollIntervalLimits;
use ntp_proto::Reach;
use ntp_proto::StepThreshold;
use ntp_proto::SystemConfig;

fn instant(seconds: u64) -> NtpInstant {
    NtpInstant::new(seconds << 32, NtpTimestamp::from_fixed_int(seconds << 32))
}

fn config() -> SystemConfig {
    SystemConfig {
        step_threshold: StepThreshold {
            duration: NtpDuration::from_millis(500),
        },
        frequency_tolerance: FrequencyTolerance::new(1_000_000),
        staleness_window: NtpDuration::from_seconds(100),
        min_cluster_size: 1,
        stability_bound: NtpDuration::from_millis(1),
        poll_limits: PollIntervalLimits::new(4, 10),
    }
}

fn snapshot(offset: NtpDuration, root_distance: NtpDuration) -> PeerSnapshot {
    PeerSnapshot {
        offset,
        delay: NtpDuration::zero(),
        root_distance,
        root_delay: NtpDuration::zero(),
        root_dispersion: NtpDuration::zero(),
        stratum: 2,
        leap: NtpLeapIndicator::NoWarning,
        reach: Reach { bits: 1 },
        poll_interval: PollInterval::new(4),
        last_update: instant(5),
        usable: true,
    }
}

#[test]
fn no_peers_no_update() {
    let mut controller = DefaultTimeSyncController::new(config());
    let before = controller.system;
    let r = controller.update(&vec![], instant(10));
    assert!(r.is_none());
    assert_eq!(controller.system, before);
}

#[test]
fn zero_reachable_peers_leave_system_untouched() {
    let mut controller = DefaultTimeSyncController::new(config());
    let before = controller.system;
    let mut unreachable = snapshot(NtpDuration::from_millis(1), NtpDuration::from_millis(10));
    unreachable.reach = Reach { bits: 0 };
    unreachable.usable = false;
    let mut unsynchronized = snapshot(NtpDuration::from_millis(2), NtpDuration::from_millis(10));
    unsynchronized.leap = NtpLeapIndicator::Unknown;
    let mut stale = snapshot(NtpDuration::from_millis(3), NtpDuration::from_millis(10));
    stale.last_update = instant(5);

    let r = controller.update(&vec![unreachable, unsynchronized, stale], instant(2000));
    assert!(r.is_none());
    assert_eq!(controller.system, before);
    assert_eq!(controller.system.version, 0);
}

#[test]
fn clustering_excludes_the_outlier() {
    let mut controller = DefaultTimeSyncController::new(config());
    let rd = NtpDuration::from_millis(50);
    let peers = vec![
        snapshot(NtpDuration::from_millis(10), rd),
        snapshot(NtpDuration::from_millis(20), rd),
        snapshot(NtpDuration::from_seconds(5), rd),
    ];
    let update = controller
        .update(&peers, instant(10))
        .expect("two overlapping peers must produce an update");
    assert_eq!(update.survivors, vec![0, 1]);
    assert_eq!(update.falsetickers, vec![2]);
}

#[test]
fn offset_at_threshold_slews_one_above_steps() {
    // the step threshold is 500 ms; a combined offset of exactly that
    // magnitude must still slew (the boundary is exclusive)
    let at_threshold = NtpDuration::from_millis(500);
    let rd = NtpDuration::from_millis(10);

    let mut controller = DefaultTimeSyncController::new(config());
    let update = controller
        .update(&vec![snapshot(at_threshold, rd)], instant(10))
        .expect("one usable peer must produce an update");
    assert_eq!(update.decision, ClockCorrection::Slew(at_threshold));

    // one raw fixed-point unit above the threshold steps
    let above = NtpDuration::from_fixed_int(at_threshold.duration + 1);
    let mut controller = DefaultTimeSyncController::new(config());
    let update = controller
        .update(&vec![snapshot(above, rd)], instant(10))
        .expect("one usable peer must produce an update");
    assert_eq!(update.decision, ClockCorrection::Step(above));
    // a step resets the frequency estimate
    assert_eq!(update.system.time.frequency_ppb, 0);
}

#[test]
fn end_to_end_three_good_peers_one_falseticker() {
    let mut controller = DefaultTimeSyncController::new(config());
    let rd = NtpDuration::from_millis(10);
    let o1 = NtpDuration::from_millis(2);
    let o2 = NtpDuration::from_millis(-1);
    let o3 = NtpDuration::from_millis(3);
    let outlier = NtpDuration::from_seconds(5);
    let peers = vec![
        snapshot(o1, rd),
        snapshot(o2, rd),
        snapshot(o3, rd),
        snapshot(outlier, rd),
    ];
    let update = controller
        .update(&peers, instant(10))
        .expect("three overlapping peers must produce an update");

    // the +5 s source is excluded and visible as a falseticker
    assert_eq!(update.survivors, vec![0, 1, 2]);
    assert_eq!(update.falsetickers, vec![3]);

    // equal distances mean equal weights, so the combined offset is the
    // plain average, truncated: about +1.33 ms
    let expected = (o1.duration + o2.duration + o3.duration) / 3;
    assert_eq!(update.system.time.offset.duration, expected);
    assert!(matches!(update.decision, ClockCorrection::Slew(_)));
    assert_eq!(update.system.version, 1);
    assert_eq!(controller.system, update.system);
}

#[test]
fn too_small_cluster_is_no_update() {
    let mut cfg = config();
    cfg.min_cluster_size = 3;
    let mut controller = DefaultTimeSyncController::new(cfg);
    let before = controller.system;
    let rd = NtpDuration::from_millis(5);
    // two clusters of two; the first wins the tie, but two survivors are
    // fewer than the configured floor of three
    let peers = vec![
        snapshot(NtpDuration::from_millis(0), rd),
        snapshot(NtpDuration::from_millis(1), rd),
        snapshot(NtpDuration::from_millis(1000), rd),
        snapshot(NtpDuration::from_millis(1001), rd),
    ];
    let r = controller.update(&peers, instant(10));
    assert!(r.is_none());
    assert_eq!(controller.system, before);
}

#[test]
fn frequency_follows_the_combined_offset() {
    let mut controller = DefaultTimeSyncController::new(config());
    // a small raw offset: 6400/16 + 6400/64 = 400 + 100 = 500
    let update = controller
        .update(
            &vec![snapshot(
                NtpDuration::from_fixed_int(6400),
                NtpDuration::from_millis(10),
            )],
            instant(10),
        )
        .expect("update");
    assert_eq!(update.system.time.frequency_ppb, 500);
}

#[test]
fn frequency_is_clamped_to_tolerance() {
    let mut cfg = config();
    cfg.frequency_tolerance = FrequencyTolerance::new(100);
    cfg.step_threshold = StepThreshold {
        duration: NtpDuration::from_seconds(10),
    };
    let mut controller = DefaultTimeSyncController::new(cfg);
    let update = controller
        .update(
            &vec![snapshot(
                NtpDuration::from_millis(400),
                NtpDuration::from_millis(10),
            )],
            instant(10),
        )
        .expect("update");
    assert_eq!(update.system.time.frequency_ppb, 100);
}

#[test]
fn stable_cluster_tightens_polling_noisy_cluster_relaxes_it() {
    // a lone peer deviates from the combined offset by nothing: stable,
    // and the hint stays at the minimum
    let mut controller = DefaultTimeSyncController::new(config());
    let update = controller
        .update(
            &vec![snapshot(
                NtpDuration::from_millis(2),
                NtpDuration::from_millis(10),
            )],
            instant(10),
        )
        .expect("update");
    assert_eq!(update.poll_hint.exponent, 4);

    // two peers 800 ms apart in one wide cluster: noisy, the hint backs off
    let mut controller = DefaultTimeSyncController::new(config());
    let rd = NtpDuration::from_seconds(1);
    let update = controller
        .update(
            &vec![
                snapshot(NtpDuration::from_millis(-400), rd),
                snapshot(NtpDuration::from_millis(400), rd),
            ],
            instant(10),
        )
        .expect("update");
    assert_eq!(update.poll_hint.exponent, 5);
}

#[test]
fn system_snapshot_carries_the_best_source_error_bounds() {
    let mut controller = DefaultTimeSyncController::new(config());
    let mut near = snapshot(NtpDuration::from_millis(1), NtpDuration::from_millis(20));
    near.delay = NtpDuration::from_millis(200);
    near.root_delay = NtpDuration::from_millis(100);
    near.root_dispersion = NtpDuration::from_millis(50);
    let far = snapshot(NtpDuration::from_millis(2), NtpDuration::from_millis(40));
    let update = controller
        .update(&vec![far, near], instant(10))
        .expect("update");
    // the peer with the smaller root distance becomes the system peer
    let expected_delay = NtpDuration::from_millis(100).duration + NtpDuration::from_millis(200).duration;
    let expected_disp = NtpDuration::from_millis(50).duration + NtpDuration::from_millis(20).duration;
    assert_eq!(update.system.time.root_delay.duration, expected_delay);
    assert_eq!(update.system.time.root_dispersion.duration, expected_disp);
    assert_eq!(update.system.time.leap, NtpLeapIndicator::NoWarning);
}
