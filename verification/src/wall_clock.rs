//! Trusted access to the system wall clock and to `std::time` values.
//!
//! The core reads the clock at exactly two points per exchange: once to
//! stamp the outgoing request and once to stamp the arrival of the reply.
//! Everything computed from those readings is verified; only the readings
//! themselves, and the conversions between `std::time` values and plain
//! integers, are trusted.

use vstd::prelude::*;

verus! {

#[verifier::external_type_specification]
#[verifier::external_body]
pub struct ExSystemTime(std::time::SystemTime);

/// Relies on std::time::SystemTime::now: reads the system clock. Nothing is
/// promised of the value; callers state what holds whatever instant comes
/// back.
#[verifier::external_body]
pub(crate) fn system_time_now() -> std::time::SystemTime {
    std::time::SystemTime::now()
}

/// Relies on SystemTime::duration_since and Duration's accessors: the span
/// from the Unix epoch to `t` as whole seconds plus a sub-second nanosecond
/// count below 10^9. An instant before the epoch is reported as the epoch.
#[verifier::external_body]
pub(crate) fn system_time_to_unix(t: &std::time::SystemTime) -> (r: (u64, u32))
    ensures
        r.1 < 1_000_000_000,
{
    match t.duration_since(std::time::SystemTime::UNIX_EPOCH) {
        Ok(d) => (d.as_secs(), d.subsec_nanos()),
        Err(_) => (0, 0),
    }
}

/// Relies on Duration::new: the duration of `secs` whole seconds plus
/// `nanos` nanoseconds. With `nanos` below 10^9 no carry occurs, so the
/// call cannot panic.
#[verifier::external_body]
pub(crate) fn duration_from_parts(secs: u64, nanos: u32) -> std::time::Duration
    requires
        nanos < 1_000_000_000,
{
    std::time::Duration::new(secs, nanos)
}

/// Relies on SystemTime::checked_add: `t` moved forward by `d`, or `None`
/// when the sum cannot be represented.
#[verifier::external_body]
pub(crate) fn system_time_checked_add(
    t: &std::time::SystemTime,
    d: std::time::Duration,
) -> Option<std::time::SystemTime> {
    t.checked_add(d)
}

/// Relies on SystemTime::checked_sub: `t` moved backward by `d`, or `None`
/// when the difference cannot be represented.
#[verifier::external_body]
pub(crate) fn system_time_checked_sub(
    t: &std::time::SystemTime,
    d: std::time::Duration,
) -> Option<std::time::SystemTime> {
    t.checked_sub(d)
}

} // verus!
