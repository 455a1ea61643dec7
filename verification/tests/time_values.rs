use ntp_proto::NtpDuration;
use ntp_proto::NtpInstant;
use ntp_proto::NtpTimestamp;
use ntp_proto::PollInterval;
use ntp_proto::PollIntervalLimits;

#[test]
fn timestamp_from_seconds_nanos_is_exact() {
    let ts = NtpTimestamp::from_seconds_nanos_since_ntp_era(1, 500_000_000);
    // one second plus exactly half a second of fraction
    assert_eq!(ts.timestamp, (1u64 << 32) + (1u64 << 31));

    let ts = NtpTimestamp::from_seconds_nanos_since_ntp_era(0, 0);
    assert_eq!(ts.timestamp, 0);

    // 1 ns maps to floor(2^32 / 10^9) fraction units
    let ts = NtpTimestamp::from_seconds_nanos_since_ntp_era(0, 1);
    assert_eq!(ts.timestamp, 4);
}

#[test]
fn timestamp_subtraction_is_signed() {
    let a = NtpTimestamp::from_fixed_int(10);
    let b = NtpTimestamp::from_fixed_int(5);
    assert_eq!(a.sub(b).duration, 5);
    assert_eq!(b.sub(a).duration, -5);
}

#[test]
fn timestamp_subtraction_handles_era_rollover() {
    // two ticks before the wrap vs. one tick after it: a small forward step
    let before = NtpTimestamp::from_fixed_int(u64::MAX - 1);
    let after = NtpTimestamp::from_fixed_int(1);
    assert_eq!(after.sub(before).duration, 3);
    assert_eq!(before.sub(after).duration, -3);
}

#[test]
fn duration_from_millis_is_exact() {
    // 2 ms = floor(2 * 2^32 / 1000)
    assert_eq!(NtpDuration::from_millis(2).duration, 8_589_934);
    assert_eq!(NtpDuration::from_millis(-1).duration, -4_294_967);
    assert_eq!(NtpDuration::from_millis(0).duration, 0);
    assert_eq!(NtpDuration::from_seconds(-2).duration, -2 * (1i64 << 32));
    assert_eq!(NtpDuration::zero().duration, 0);
}

#[test]
fn instant_elapsed_saturates_at_zero() {
    let wall = NtpTimestamp::from_fixed_int(0);
    let early = NtpInstant::new(100, wall);
    let late = NtpInstant::new(250, wall);
    assert_eq!(late.elapsed_since(early).duration, 150);
    // an "earlier" instant that lies in the future reads as zero elapsed
    assert_eq!(early.elapsed_since(late).duration, 0);
}

#[test]
fn poll_interval_steps_stay_in_limits() {
    let limits = PollIntervalLimits::new(4, 10);
    let mut p = PollInterval::new(4);
    for _ in 0..20 {
        p = p.inc(limits);
        assert!(p.exponent >= 4 && p.exponent <= 10);
    }
    assert_eq!(p.exponent, 10);
    for _ in 0..20 {
        p = p.dec(limits);
        assert!(p.exponent >= 4 && p.exponent <= 10);
    }
    assert_eq!(p.exponent, 4);

    // an out-of-range interval is pulled back in by one step
    let low = PollInterval::new(1);
    assert_eq!(low.inc(limits).exponent, 4);
    let high = PollInterval::new(14);
    assert_eq!(high.dec(limits).exponent, 10);
}

#[test]
fn poll_interval_period_is_a_power_of_two() {
    assert_eq!(PollInterval::new(0).as_seconds(), 1);
    assert_eq!(PollInterval::new(6).as_seconds(), 64);
    assert_eq!(PollInterval::new(17).as_seconds(), 131_072);
}
