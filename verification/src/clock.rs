//! The current time, read from the system clock through `chrono`.
use vstd::prelude::*;

verus! {

/// Bound on `chrono` timestamps in seconds: its dates end before year 262144.
pub const SECONDS_LIMIT: i64 = 0x800_0000_0000;

/// Bound on `chrono` timestamps in microseconds.
pub const MICROS_LIMIT: i64 = 0x7a12_0000_0000_0000;

/// Calls `chrono::Utc::now().timestamp()`: whole seconds since the Unix epoch.
/// `Utc::now` panics for a clock before 1970, so the value is not negative, and
/// it lies within `chrono`'s range of dates. Nothing else is stated.
#[verifier::external_body]
pub(crate) fn now_seconds() -> (t: i64)
    ensures
        0 <= t < SECONDS_LIMIT,
{
    chrono::Utc::now().timestamp()
}

/// Calls `chrono::Utc::now().timestamp_micros()`: microseconds since the Unix
/// epoch, not negative and within `chrono`'s range of dates. Nothing else is stated.
#[verifier::external_body]
pub(crate) fn now_micros() -> (t: i64)
    ensures
        0 <= t < MICROS_LIMIT,
{
    chrono::Utc::now().timestamp_micros()
}

} // verus!
