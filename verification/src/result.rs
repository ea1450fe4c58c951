//! Signed durations, derived wall-clock instants, and the outcome of a
//! synchronization.

use crate::error::ConversionError;
use crate::packet::{LeapIndicator, ReferenceIdentifier, FRAC_SCALE};
use crate::wall_clock;
use vstd::prelude::*;

verus! {

/// The magnitude of a value.
pub open spec fn spec_abs(x: int) -> int {
    if x >= 0 {
        x
    } else {
        -x
    }
}

/// A duration's whole seconds: its magnitude divided by the fixed-point
/// scale.
pub open spec fn spec_abs_seconds(units: int) -> int {
    spec_abs(units) / (FRAC_SCALE as int)
}

/// A duration's sub-second part in nanoseconds, truncated: the fractional
/// fixed-point units scaled to nanoseconds.
pub open spec fn spec_abs_subsec_nanos(units: int) -> int {
    (spec_abs(units) % (FRAC_SCALE as int)) * 1_000_000_000 / (FRAC_SCALE as int)
}

/// A duration rounded toward zero to whole nanoseconds, signed.
pub open spec fn spec_signed_nanos(units: int) -> int {
    if units >= 0 {
        spec_abs_seconds(units) * 1_000_000_000 + spec_abs_subsec_nanos(units)
    } else {
        -(spec_abs_seconds(units) * 1_000_000_000 + spec_abs_subsec_nanos(units))
    }
}

/// A signed span of time, stored exactly as a count of 2^-32-second
/// fixed-point units (the resolution of an NTP timestamp fraction).
///
/// Negative values arise naturally: a negative clock offset means the local
/// clock is ahead of the server.
#[derive(Clone, Copy, Debug, PartialEq, Eq, Structural)]
pub struct SntpDuration {
    units: i128,
}

impl View for SntpDuration {
    type V = int;

    closed spec fn view(&self) -> int {
        self.units as int
    }
}

impl SntpDuration {
    /// Every duration stays below 2^96 units in magnitude, so its whole
    /// second count always fits 64 bits.
    #[verifier::type_invariant]
    pub closed spec fn wf(self) -> bool {
        -0x1_0000_0000_0000_0000_0000_0000 < self.units < 0x1_0000_0000_0000_0000_0000_0000
    }

    /// The duration of exactly `units` fixed-point units (2^-32 s each).
    pub fn from_fixed_point(units: i128) -> (r: SntpDuration)
        requires
            -0x1_0000_0000_0000_0000_0000_0000 < units < 0x1_0000_0000_0000_0000_0000_0000,
        ensures
            r@ == units,
    {
        SntpDuration { units }
    }

    /// The duration's exact value as a count of 2^-32-second units.
    pub fn as_fixed_point(&self) -> (r: i128)
        ensures
            r == self@,
    {
        proof {
            use_type_invariant(self);
        }
        self.units
    }

    /// The duration of exactly `seconds` whole seconds.
    pub fn from_secs(seconds: i64) -> (r: SntpDuration)
        ensures
            r@ == seconds * (FRAC_SCALE as int),
    {
        proof {
            assert(-0x1_0000_0000_0000_0000_0000_0000 < (seconds as int) * (FRAC_SCALE as int)
                < 0x1_0000_0000_0000_0000_0000_0000) by (nonlinear_arith)
                requires
                    -0x8000_0000_0000_0000 <= seconds <= 0x7fff_ffff_ffff_ffff,
                    FRAC_SCALE == 0x1_0000_0000u64,
            ;
        }
        SntpDuration { units: seconds as i128 * FRAC_SCALE as i128 }
    }

    /// The sign of the duration: 1 when zero or positive, -1 when negative.
    pub fn signum(&self) -> (r: i32)
        ensures
            self@ >= 0 ==> r == 1,
            self@ < 0 ==> r == -1,
    {
        if self.units >= 0 {
            1
        } else {
            -1
        }
    }

    /// The duration's magnitude split into whole seconds and a sub-second
    /// nanosecond count, truncated to nanosecond resolution.
    pub fn abs_parts(&self) -> (r: (u64, u32))
        ensures
            r.0 == spec_abs_seconds(self@),
            r.1 == spec_abs_subsec_nanos(self@),
            r.1 < 1_000_000_000,
    {
        proof {
            use_type_invariant(self);
        }
        let magnitude: u128 = if self.units < 0 {
            (-self.units) as u128
        } else {
            self.units as u128
        };
        proof {
            vstd::arithmetic::div_mod::lemma_div_is_ordered(
                magnitude as int,
                0xffff_ffff_ffff_ffff_ffff_ffff,
                FRAC_SCALE as int,
            );
        }
        let seconds: u64 = (magnitude / FRAC_SCALE as u128) as u64;
        let frac: u128 = magnitude % FRAC_SCALE as u128;
        proof {
            vstd::arithmetic::div_mod::lemma_div_is_ordered(
                (frac * 1_000_000_000) as int,
                0xffff_ffffint * 1_000_000_000,
                FRAC_SCALE as int,
            );
        }
        let nanos: u32 = ((frac * 1_000_000_000) / FRAC_SCALE as u128) as u32;
        (seconds, nanos)
    }

    /// The duration's magnitude as a standard library duration, truncated
    /// to nanosecond resolution. A standard duration cannot carry a sign,
    /// so the caller pairs this with `signum`. Every representable value
    /// converts: the whole-second count always fits.
    pub fn abs_as_std_duration(&self) -> (r: Result<std::time::Duration, ConversionError>)
        ensures
            r is Ok,
    {
        let parts: (u64, u32) = self.abs_parts();
        Ok(wall_clock::duration_from_parts(parts.0, parts.1))
    }
}

#[verifier::external_type_specification]
#[verifier::external_body]
pub struct ExTimeDelta(chrono::TimeDelta);

/// The chrono duration whose value is `secs` whole seconds plus `nanos`
/// nanoseconds (`0 <= nanos < 10^9`); named, since only chrono can build
/// the value.
pub uninterp spec fn spec_chrono_delta(secs: int, nanos: int) -> chrono::TimeDelta;

/// Relies on chrono::TimeDelta::new: `Some` exactly outside the documented
/// out-of-bounds cases (the magnitude is capped at i64::MAX milliseconds),
/// and the value is the span the two arguments name.
pub assume_specification[ chrono::TimeDelta::new ](secs: i64, nanos: u32) -> (r: Option<
    chrono::TimeDelta,
>)
    ensures
        r is Some <==> (-9_223_372_036_854_776 <= secs <= 9_223_372_036_854_775 && nanos
            < 1_000_000_000 && !(secs == 9_223_372_036_854_775 && nanos > 807_000_000) && !(secs
            == -9_223_372_036_854_776 && nanos < 193_000_000)),
        r matches Some(d) ==> d == spec_chrono_delta(secs as int, nanos as int),
;

#[verifier::external_type_specification]
#[verifier::external_body]
pub struct ExSignedDuration(time::SignedDuration);

/// The time-crate duration whose value is `secs` whole seconds plus `nanos`
/// nanoseconds of the same sign (`|nanos| < 10^9`); named, since only the
/// time crate can build the value.
pub uninterp spec fn spec_time_duration(secs: int, nanos: int) -> time::SignedDuration;

/// Relies on time::SignedDuration::new: with a sub-second nanosecond count
/// of the same sign as the seconds, no carry occurs, the call cannot panic,
/// and the value is the span the two arguments name.
#[verifier::external_body]
fn time_duration_new(seconds: i64, nanoseconds: i32) -> (r: time::SignedDuration)
    requires
        -1_000_000_000 < nanoseconds < 1_000_000_000,
        seconds > 0 ==> nanoseconds >= 0,
        seconds < 0 ==> nanoseconds <= 0,
    ensures
        r == spec_time_duration(seconds as int, nanoseconds as int),
{
    time::SignedDuration::new(seconds, nanoseconds)
}

#[verifier::external_type_specification]
#[verifier::external_body]
pub struct ExOffsetDateTime(time::OffsetDateTime);

/// Relies on time::OffsetDateTime::now_utc: reads the system clock; nothing
/// is promised of the value.
#[verifier::external_body]
fn offset_date_time_now_utc() -> time::OffsetDateTime {
    time::OffsetDateTime::now_utc()
}

/// Relies on OffsetDateTime::checked_add: the instant moved by `d`, or
/// `None` when the result leaves the representable range.
#[verifier::external_body]
fn offset_date_time_checked_add(
    t: time::OffsetDateTime,
    d: time::SignedDuration,
) -> Option<time::OffsetDateTime> {
    t.checked_add(d)
}

impl SntpDuration {
    /// This duration as a chrono duration, truncated to nanosecond
    /// resolution; `Overflow` exactly when the value exceeds what chrono
    /// can hold (i64::MAX milliseconds in magnitude).
    pub fn into_chrono_duration(self) -> (r: Result<chrono::Duration, ConversionError>)
        ensures
            r is Ok <==> spec_abs(spec_signed_nanos(self@)) <= 9_223_372_036_854_775_807_000_000,
            r matches Ok(d) ==> d == spec_chrono_delta(
                spec_signed_nanos(self@) / 1_000_000_000,
                spec_signed_nanos(self@) % 1_000_000_000,
            ),
            r is Err ==> r == Err::<chrono::Duration, ConversionError>(ConversionError::Overflow),
    {
        let parts: (u64, u32) = self.abs_parts();
        let in_range: bool = parts.0 < 9_223_372_036_854_775 || (parts.0 == 9_223_372_036_854_775
            && parts.1 <= 807_000_000);
        if !in_range {
            return Err(ConversionError::Overflow);
        }
        let ghost sn = spec_signed_nanos(self@);
        if self.signum() >= 0 {
            proof {
                vstd::arithmetic::div_mod::lemma_fundamental_div_mod_converse(
                    sn,
                    1_000_000_000,
                    parts.0 as int,
                    parts.1 as int,
                );
            }
            match chrono::TimeDelta::new(parts.0 as i64, parts.1) {
                Some(d) => Ok(d),
                None => Err(ConversionError::Overflow),
            }
        } else if parts.1 > 0 {
            proof {
                vstd::arithmetic::div_mod::lemma_fundamental_div_mod_converse(
                    sn,
                    1_000_000_000,
                    -(parts.0 as int) - 1,
                    1_000_000_000 - parts.1 as int,
                );
            }
            match chrono::TimeDelta::new(-(parts.0 as i64) - 1, 1_000_000_000 - parts.1) {
                Some(d) => Ok(d),
                None => Err(ConversionError::Overflow),
            }
        } else {
            proof {
                vstd::arithmetic::div_mod::lemma_fundamental_div_mod_converse(
                    sn,
                    1_000_000_000,
                    -(parts.0 as int),
                    0,
                );
            }
            match chrono::TimeDelta::new(-(parts.0 as i64), 0) {
                Some(d) => Ok(d),
                None => Err(ConversionError::Overflow),
            }
        }
    }

    /// This duration as a time-crate duration, truncated to nanosecond
    /// resolution; `Overflow` exactly when the whole-second count exceeds
    /// what an i64 can hold.
    pub fn into_time_duration(self) -> (r: Result<time::Duration, ConversionError>)
        ensures
            r is Ok <==> spec_abs_seconds(self@) <= 0x7fff_ffff_ffff_ffff,
            r matches Ok(d) ==> d == (if self@ >= 0 {
                spec_time_duration(spec_abs_seconds(self@), spec_abs_subsec_nanos(self@))
            } else {
                spec_time_duration(-spec_abs_seconds(self@), -spec_abs_subsec_nanos(self@))
            }),
            r is Err ==> r == Err::<time::Duration, ConversionError>(ConversionError::Overflow),
    {
        let parts: (u64, u32) = self.abs_parts();
        if parts.0 > 0x7fff_ffff_ffff_ffff {
            return Err(ConversionError::Overflow);
        }
        if self.signum() >= 0 {
            Ok(time_duration_new(parts.0 as i64, parts.1 as i32))
        } else {
            Ok(time_duration_new(-(parts.0 as i64), -(parts.1 as i32)))
        }
    }
}

/// A derived date and time: the current instant corrected by a
/// synchronization's clock offset.
///
/// Only the offset is stored — an absolute corrected time would go stale
/// the moment the system clock advances — so every conversion reads the
/// clock when it is called, and assumes the clock has not been stepped
/// since the synchronization.
#[derive(Debug, Clone, Copy)]
pub struct SntpDateTime {
    offset: SntpDuration,
}

impl SntpDateTime {
    /// The clock offset this date-time applies to the clock.
    pub closed spec fn spec_offset(&self) -> SntpDuration {
        self.offset
    }

    /// A date-time lying `offset` away from whatever the clock shows at the
    /// moment of a conversion.
    pub fn new(offset: SntpDuration) -> (r: SntpDateTime)
        ensures
            r.spec_offset() == offset,
    {
        SntpDateTime { offset }
    }

    /// The clock offset this date-time applies to the clock.
    pub fn offset(&self) -> (r: SntpDuration)
        ensures
            r == self.spec_offset(),
    {
        self.offset
    }

    /// The corrected instant `now + offset` as Unix seconds plus
    /// nanoseconds, for a caller-supplied clock reading `now`; `Overflow`
    /// exactly when the corrected instant leaves the representable range
    /// (before the epoch, or past the largest second count).
    pub fn unix_timestamp_from(&self, now_seconds: u64, now_nanoseconds: u32) -> (r: Result<
        (u64, u32),
        ConversionError,
    >)
        requires
            now_nanoseconds < 1_000_000_000,
        ensures
            r is Ok <==> 0 <= now_seconds * 1_000_000_000 + now_nanoseconds + spec_signed_nanos(
                self.spec_offset()@,
            ) <= 0xffff_ffff_ffff_ffff * 1_000_000_000 + 999_999_999,
            r matches Ok(p) ==> p.0 * 1_000_000_000 + p.1 == now_seconds * 1_000_000_000
                + now_nanoseconds + spec_signed_nanos(self.spec_offset()@) && p.1 < 1_000_000_000,
            r is Err ==> r == Err::<(u64, u32), ConversionError>(ConversionError::Overflow),
    {
        let parts: (u64, u32) = self.offset.abs_parts();
        if self.offset.signum() >= 0 {
            let nsum: u32 = now_nanoseconds + parts.1;
            let carry: u64 = if nsum >= 1_000_000_000 {
                1
            } else {
                0
            };
            let nanos: u32 = if nsum >= 1_000_000_000 {
                nsum - 1_000_000_000
            } else {
                nsum
            };
            match now_seconds.checked_add(parts.0) {
                None => Err(ConversionError::Overflow),
                Some(s1) => match s1.checked_add(carry) {
                    None => Err(ConversionError::Overflow),
                    Some(s) => Ok((s, nanos)),
                },
            }
        } else {
            let borrow: u64 = if now_nanoseconds >= parts.1 {
                0
            } else {
                1
            };
            let nanos: u32 = if now_nanoseconds >= parts.1 {
                now_nanoseconds - parts.1
            } else {
                now_nanoseconds + 1_000_000_000 - parts.1
            };
            match parts.0.checked_add(borrow) {
                None => Err(ConversionError::Overflow),
                Some(need) => {
                    if now_seconds < need {
                        Err(ConversionError::Overflow)
                    } else {
                        Ok((now_seconds - need, nanos))
                    }
                },
            }
        }
    }

    /// The corrected current instant as a span since the Unix epoch,
    /// reading the system clock now; `Overflow` when the corrected instant
    /// is not representable — for instance, when it falls before the epoch.
    pub fn unix_timestamp(&self) -> (r: Result<std::time::Duration, ConversionError>)
        ensures
            r is Err ==> r == Err::<std::time::Duration, ConversionError>(
                ConversionError::Overflow,
            ),
    {
        let now: std::time::SystemTime = wall_clock::system_time_now();
        let parts: (u64, u32) = wall_clock::system_time_to_unix(&now);
        match self.unix_timestamp_from(parts.0, parts.1) {
            Ok(p) => Ok(wall_clock::duration_from_parts(p.0, p.1)),
            Err(e) => Err(e),
        }
    }

    /// The corrected current instant as a time-crate date-time, reading the
    /// system clock now; `Overflow` when the offset or the shifted instant
    /// leaves the representable range.
    pub fn into_offset_date_time(self) -> (r: Result<time::OffsetDateTime, ConversionError>)
        ensures
            r is Err ==> r == Err::<time::OffsetDateTime, ConversionError>(
                ConversionError::Overflow,
            ),
    {
        let delta: time::Duration = match self.offset.into_time_duration() {
            Ok(d) => d,
            Err(e) => {
                return Err(e);
            },
        };
        let now: time::OffsetDateTime = offset_date_time_now_utc();
        match offset_date_time_checked_add(now, delta) {
            Some(t) => Ok(t),
            None => Err(ConversionError::Overflow),
        }
    }

    /// The corrected current instant as a `SystemTime`, reading the system
    /// clock now; `Overflow` when the platform cannot represent the result.
    pub fn into_system_time(self) -> (r: Result<std::time::SystemTime, ConversionError>)
        ensures
            r is Err ==> r == Err::<std::time::SystemTime, ConversionError>(
                ConversionError::Overflow,
            ),
    {
        let parts: (u64, u32) = self.offset.abs_parts();
        let d: std::time::Duration = wall_clock::duration_from_parts(parts.0, parts.1);
        let now: std::time::SystemTime = wall_clock::system_time_now();
        let shifted: Option<std::time::SystemTime> = if self.offset.signum() > 0 {
            wall_clock::system_time_checked_add(&now, d)
        } else {
            wall_clock::system_time_checked_sub(&now, d)
        };
        match shifted {
            Some(t) => Ok(t),
            None => Err(ConversionError::Overflow),
        }
    }
}

/// What a successful synchronization produced: the clock offset between the
/// local clock and the server (negative when the local clock is ahead), the
/// round-trip delay of the exchange, and the reply's reference identifier,
/// leap indicator and stratum.
#[derive(Debug, Clone)]
pub struct SynchronizationResult {
    clock_offset: SntpDuration,
    round_trip_delay: SntpDuration,
    reference_identifier: ReferenceIdentifier,
    leap_indicator: LeapIndicator,
    stratum: u8,
}

impl SynchronizationResult {
    /// The clock offset carried by this result.
    pub closed spec fn spec_clock_offset(&self) -> SntpDuration {
        self.clock_offset
    }

    /// The round-trip delay carried by this result.
    pub closed spec fn spec_round_trip_delay(&self) -> SntpDuration {
        self.round_trip_delay
    }

    /// The reference identifier carried by this result.
    pub closed spec fn spec_reference_identifier(&self) -> ReferenceIdentifier {
        self.reference_identifier
    }

    /// The leap indicator carried by this result.
    pub closed spec fn spec_leap_indicator(&self) -> LeapIndicator {
        self.leap_indicator
    }

    /// The stratum carried by this result.
    pub closed spec fn spec_stratum(&self) -> u8 {
        self.stratum
    }

    pub(crate) fn new(
        clock_offset: SntpDuration,
        round_trip_delay: SntpDuration,
        reference_identifier: ReferenceIdentifier,
        leap_indicator: LeapIndicator,
        stratum: u8,
    ) -> (r: SynchronizationResult)
        ensures
            r.spec_clock_offset() == clock_offset,
            r.spec_round_trip_delay() == round_trip_delay,
            r.spec_reference_identifier() == reference_identifier,
            r.spec_leap_indicator() == leap_indicator,
            r.spec_stratum() == stratum,
    {
        SynchronizationResult {
            clock_offset,
            round_trip_delay,
            reference_identifier,
            leap_indicator,
            stratum,
        }
    }

    /// The offset between server and local clock; negative means the local
    /// clock is ahead.
    pub fn clock_offset(&self) -> (r: SntpDuration)
        ensures
            r == self.spec_clock_offset(),
    {
        self.clock_offset
    }

    /// The time SNTP packets needed to travel back and forth between this
    /// host and the server. It is signed, but negative values should not
    /// occur in client mode; none is rejected here.
    pub fn round_trip_delay(&self) -> (r: SntpDuration)
        ensures
            r == self.spec_round_trip_delay(),
    {
        self.round_trip_delay
    }

    /// The server's reference identifier: the synchronization source of the
    /// server itself.
    pub fn reference_identifier(&self) -> (r: &ReferenceIdentifier)
        ensures
            *r == self.spec_reference_identifier(),
    {
        &self.reference_identifier
    }

    /// The current corrected UTC date and time, derived lazily from the
    /// clock offset: the corrected instant is computed from the clock at
    /// the moment of conversion, never stored.
    pub fn datetime(&self) -> (r: SntpDateTime)
        ensures
            r.spec_offset() == self.spec_clock_offset(),
    {
        SntpDateTime::new(self.clock_offset())
    }

    /// The reply's leap indicator: warning of an impending leap second in
    /// the last minute of the current day.
    pub fn leap_indicator(&self) -> (r: LeapIndicator)
        ensures
            r == self.spec_leap_indicator(),
    {
        self.leap_indicator
    }

    /// The server's stratum: 1 is a primary reference, 2 to 15 secondary
    /// references, 16 unsynchronized.
    pub fn stratum(&self) -> (r: u8)
        ensures
            r == self.spec_stratum(),
    {
        self.stratum
    }
}

} // verus!
