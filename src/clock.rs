//! The wall clock, read as whole seconds or milliseconds since the Unix epoch.
use vstd::prelude::*;

verus! {

/// Relies on chrono's `Utc::now`, read by `DateTime::timestamp_millis` as whole
/// milliseconds since the Unix epoch. `Utc::now` panics on a system clock set
/// before the epoch, so a value it returns is never negative; nothing more is
/// promised of it.
#[verifier::external_body]
fn utc_now_millis() -> (r: i64)
    ensures
        r >= 0,
{
    chrono::Utc::now().timestamp_millis()
}

/// Milliseconds since the Unix epoch, now.
pub fn unix_millis() -> (r: u64)
    ensures
        r <= i64::MAX,
{
    utc_now_millis() as u64
}

/// Whole seconds since the Unix epoch, now.
pub fn unix_seconds() -> (r: u64)
    ensures
        r <= u64::MAX / 1000,
{
    unix_millis() / 1000
}

} // verus!
