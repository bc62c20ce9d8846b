//! The current time, from `chrono`.
use vstd::prelude::*;

verus! {

/// The current UTC time in microseconds since the Unix epoch
/// (`chrono::Utc::now().timestamp_micros()`). Which time comes back depends on
/// the clock and is not stated.
#[verifier::external_body]
pub(crate) fn now_micros() -> (t: i64) {
    chrono::Utc::now().timestamp_micros()
}

/// The current UTC time in whole seconds since the Unix epoch
/// (`chrono::Utc::now().timestamp()`). Which time comes back depends on the
/// clock and is not stated; a `chrono` date lies between the years -262143
/// and 262142 (`DateTime::MIN_UTC` and `MAX_UTC`), so the count lies within
/// ten trillion seconds of the epoch either way.
#[verifier::external_body]
pub(crate) fn now_secs() -> (t: i64)
    ensures
        -10_000_000_000_000 <= t <= 10_000_000_000_000,
{
    chrono::Utc::now().timestamp()
}

} // verus!
