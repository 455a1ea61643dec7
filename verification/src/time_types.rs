//! Fixed-point time values: timestamps, durations, monotonic instants and
//! poll intervals.
//!
//! A timestamp is an unsigned 64-bit fixed-point number: the upper 32 bits
//! count whole seconds since the protocol's era epoch, the lower 32 bits the
//! fraction of a second.  Timestamps wrap across eras, so the difference of
//! two timestamps is taken modulo 2^64 and read as a signed value.  A
//! duration is that signed difference: a signed 64-bit fixed-point count of
//! seconds.

use vstd::prelude::*;

verus! {

/// Truncating (round-toward-zero) integer division, the semantics every
/// division in this library uses.  The divisor is expected to be positive.
pub open spec fn div_trunc(a: int, b: int) -> int
    recommends
        b > 0,
{
    if a >= 0 {
        a / b
    } else {
        -((-a) / b)
    }
}

/// Clamp a mathematical integer into an inclusive range.
pub open spec fn clamp_int(x: int, lo: int, hi: int) -> int {
    if x < lo {
        lo
    } else if x > hi {
        hi
    } else {
        x
    }
}

/// The signed difference `a - b` of two raw timestamps, taken modulo 2^64
/// and read as a two's-complement value.  This is how timestamp arithmetic
/// survives an era rollover: a small forward step across the wrap still
/// yields a small positive difference.
pub open spec fn ts_diff(a: u64, b: u64) -> int {
    let w = vstd::wrapping::u64_specs::wrapping_sub(a, b);
    if w > i64::MAX {
        w - 0x1_0000_0000_0000_0000
    } else {
        w as int
    }
}

/// An era-wrapping 64-bit fixed-point timestamp (32 bits of seconds since
/// the era epoch, 32 bits of second fraction).
#[derive(Clone, Copy, Debug, PartialEq, Eq, Structural)]
pub struct NtpTimestamp {
    pub timestamp: u64,
}

/// A signed 64-bit fixed-point count of seconds (32.32): the difference of
/// two timestamps.
#[derive(Clone, Copy, Debug, PartialEq, Eq, Structural)]
pub struct NtpDuration {
    pub duration: i64,
}

impl NtpTimestamp {
    /// The raw fixed-point value.
    pub open spec fn view(&self) -> u64 {
        self.timestamp
    }

    /// Wrap a raw 64-bit fixed-point value.
    pub fn from_fixed_int(ts: u64) -> (r: NtpTimestamp)
        ensures
            r.timestamp == ts,
    {
        NtpTimestamp { timestamp: ts }
    }

    /// Build a timestamp from whole seconds since the era epoch and a
    /// nanosecond fraction.  The fraction is converted exactly to the
    /// 32-bit binary fraction `nanos * 2^32 / 10^9` (truncated).
    pub fn from_seconds_nanos_since_ntp_era(seconds: u32, nanos: u32) -> (r: NtpTimestamp)
        requires
            nanos < 1_000_000_000,
        ensures
            r.timestamp == seconds * 0x1_0000_0000u64 + (nanos * 0x1_0000_0000u64) / 1_000_000_000,
    {
        let frac: u64 = ((nanos as u64) * 0x1_0000_0000u64) / 1_000_000_000u64;
        let ts: u64 = (seconds as u64) * 0x1_0000_0000u64 + frac;
        NtpTimestamp { timestamp: ts }
    }

    /// The era-wrapping difference `self - other` as a signed duration.
    pub fn sub(self, other: NtpTimestamp) -> (r: NtpDuration)
        ensures
            r.duration == ts_diff(self.timestamp, other.timestamp),
    {
        let w: u64 = self.timestamp.wrapping_sub(other.timestamp);
        if w <= i64::MAX as u64 {
            NtpDuration { duration: w as i64 }
        } else if w == 0x8000_0000_0000_0000u64 {
            NtpDuration { duration: i64::MIN }
        } else {
            // the difference is negative: compute its magnitude the other
            // way around, which cannot itself wrap out of the i64 range
            let neg: u64 = other.timestamp.wrapping_sub(self.timestamp);
            NtpDuration { duration: -(neg as i64) }
        }
    }
}

impl NtpDuration {
    /// The raw signed fixed-point value.
    pub open spec fn view(&self) -> int {
        self.duration as int
    }

    /// The zero duration.
    pub fn zero() -> (r: NtpDuration)
        ensures
            r.duration == 0,
    {
        NtpDuration { duration: 0 }
    }

    /// Wrap a raw signed fixed-point value.
    pub fn from_fixed_int(d: i64) -> (r: NtpDuration)
        ensures
            r.duration == d,
    {
        NtpDuration { duration: d }
    }

    /// The raw signed fixed-point value, for callers that convert durations
    /// into another unit.
    pub fn as_fixed_int(self) -> (r: i64)
        ensures
            r == self.duration,
    {
        self.duration
    }

    /// A duration of exactly `seconds` seconds.
    pub fn from_seconds(seconds: i32) -> (r: NtpDuration)
        ensures
            r.duration == seconds * 0x1_0000_0000i64,
    {
        NtpDuration { duration: (seconds as i64) * 0x1_0000_0000i64 }
    }

    /// A duration of `millis` milliseconds, converted exactly to fixed
    /// point as `millis * 2^32 / 1000`, truncated toward zero.
    pub fn from_millis(millis: i64) -> (r: NtpDuration)
        requires
            -1_000_000_000_000 <= millis <= 1_000_000_000_000,
        ensures
            r.duration == div_trunc(millis * 0x1_0000_0000, 1000),
    {
        if millis >= 0 {
            let scaled: u128 = (millis as u128) * 0x1_0000_0000u128;
            let d: u128 = scaled / 1000u128;
            NtpDuration { duration: d as i64 }
        } else {
            let magnitude: u128 = ((-millis) as u128) * 0x1_0000_0000u128;
            let d: u128 = magnitude / 1000u128;
            NtpDuration { duration: -(d as i64) }
        }
    }
}

/// A reading of the local monotonic clock paired with the wall timestamp at
/// which it was taken.  Elapsed time between two instants is computed from
/// the monotonic part alone, so it is unaffected by steps applied to the
/// wall clock.
#[derive(Clone, Copy, Debug, PartialEq, Eq, Structural)]
pub struct NtpInstant {
    /// Monotonic clock reading, 64-bit fixed point (32.32 seconds).
    pub monotonic: u64,
    /// Wall-clock timestamp captured together with the monotonic reading.
    pub wall: NtpTimestamp,
}

impl NtpInstant {
    /// Build an instant from its two clock readings.
    pub fn new(monotonic: u64, wall: NtpTimestamp) -> (r: NtpInstant)
        ensures
            r.monotonic == monotonic,
            r.wall == wall,
    {
        NtpInstant { monotonic, wall }
    }

    /// The monotonic time elapsed since `earlier`, saturating at zero if
    /// `earlier` does not in fact lie in the past, and at the largest
    /// representable duration.
    pub fn elapsed_since(self, earlier: NtpInstant) -> (r: NtpDuration)
        ensures
            r.duration == clamp_int(self.monotonic - earlier.monotonic, 0, i64::MAX as int),
    {
        let diff: u64 = self.monotonic.saturating_sub(earlier.monotonic);
        if diff > i64::MAX as u64 {
            NtpDuration { duration: i64::MAX }
        } else {
            NtpDuration { duration: diff as i64 }
        }
    }
}

/// The largest poll-interval exponent a limit may carry; `2^17` seconds is
/// about a day and a half.
pub const MAX_POLL_EXPONENT: u8 = 17;

/// A polling cadence: the peer is polled every `2^exponent` seconds.
#[derive(Clone, Copy, Debug, PartialEq, Eq, Structural)]
pub struct PollInterval {
    pub exponent: u8,
}

/// The configured range a poll interval must stay in.
#[derive(Clone, Copy, Debug, PartialEq, Eq, Structural)]
pub struct PollIntervalLimits {
    pub min: PollInterval,
    pub max: PollInterval,
}

impl PollIntervalLimits {
    /// A valid range: ordered, and small enough that `2^exponent` seconds
    /// stays representable.
    pub open spec fn wf(&self) -> bool {
        self.min.exponent <= self.max.exponent && self.max.exponent <= MAX_POLL_EXPONENT
    }

    /// Build a limit range.
    pub fn new(min_exponent: u8, max_exponent: u8) -> (r: PollIntervalLimits)
        requires
            min_exponent <= max_exponent,
            max_exponent <= MAX_POLL_EXPONENT,
        ensures
            r.min.exponent == min_exponent,
            r.max.exponent == max_exponent,
            r.wf(),
    {
        PollIntervalLimits {
            min: PollInterval { exponent: min_exponent },
            max: PollInterval { exponent: max_exponent },
        }
    }
}

/// The exponent one step up from `e`, clamped to the limits.
pub open spec fn inc_exponent(e: u8, limits: PollIntervalLimits) -> u8 {
    if e >= limits.max.exponent {
        limits.max.exponent
    } else if e < limits.min.exponent {
        limits.min.exponent
    } else {
        (e + 1) as u8
    }
}

/// The exponent one step down from `e`, clamped to the limits.
pub open spec fn dec_exponent(e: u8, limits: PollIntervalLimits) -> u8 {
    if e <= limits.min.exponent {
        limits.min.exponent
    } else if e > limits.max.exponent {
        limits.max.exponent
    } else {
        (e - 1) as u8
    }
}

impl PollInterval {
    /// Whether this interval lies inside the configured range.
    pub open spec fn in_limits(&self, limits: PollIntervalLimits) -> bool {
        limits.min.exponent <= self.exponent <= limits.max.exponent
    }

    /// Build an interval from its exponent.
    pub fn new(exponent: u8) -> (r: PollInterval)
        ensures
            r.exponent == exponent,
    {
        PollInterval { exponent }
    }

    /// Double the cadence's period (halve the polling rate), staying inside
    /// the limits.
    pub fn inc(self, limits: PollIntervalLimits) -> (r: PollInterval)
        ensures
            r.exponent == inc_exponent(self.exponent, limits),
            limits.wf() ==> r.in_limits(limits),
    {
        if self.exponent >= limits.max.exponent {
            PollInterval { exponent: limits.max.exponent }
        } else if self.exponent < limits.min.exponent {
            PollInterval { exponent: limits.min.exponent }
        } else {
            PollInterval { exponent: self.exponent + 1 }
        }
    }

    /// Halve the cadence's period (double the polling rate), staying inside
    /// the limits.
    pub fn dec(self, limits: PollIntervalLimits) -> (r: PollInterval)
        ensures
            r.exponent == dec_exponent(self.exponent, limits),
            limits.wf() ==> r.in_limits(limits),
    {
        if self.exponent <= limits.min.exponent {
            PollInterval { exponent: limits.min.exponent }
        } else if self.exponent > limits.max.exponent {
            PollInterval { exponent: limits.max.exponent }
        } else {
            PollInterval { exponent: self.exponent - 1 }
        }
    }

    /// The period in whole seconds: `2^exponent`.
    pub fn as_seconds(self) -> (r: u32)
        requires
            self.exponent <= MAX_POLL_EXPONENT,
        ensures
            r == 1u32 << self.exponent,
    {
        1u32 << self.exponent
    }
}

/// A bound on how far the frequency-error estimate may drift, in parts
/// per billion of the nominal clock rate.
#[derive(Clone, Copy, Debug, PartialEq, Eq, Structural)]
pub struct FrequencyTolerance {
    pub ppb: i64,
}

impl FrequencyTolerance {
    /// A tolerance must be non-negative.
    pub open spec fn wf(&self) -> bool {
        self.ppb >= 0
    }

    /// Build a tolerance.
    pub fn new(ppb: i64) -> (r: FrequencyTolerance)
        requires
            ppb >= 0,
        ensures
            r.ppb == ppb,
            r.wf(),
    {
        FrequencyTolerance { ppb }
    }
}

/// Poll intervals never leave the configured range: any sequence of the
/// clamped steps `inc` and `dec` keeps an in-range interval in range, and
/// pulls an out-of-range one back in.
pub proof fn lemma_poll_interval_steps_stay_in_limits(e: u8, limits: PollIntervalLimits)
    requires
        limits.wf(),
    ensures
        limits.min.exponent <= inc_exponent(e, limits) <= limits.max.exponent,
        limits.min.exponent <= dec_exponent(e, limits) <= limits.max.exponent,
{
}

} // verus!
