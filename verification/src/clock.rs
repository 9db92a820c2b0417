//! The one place where the library reads the wall clock.

use vstd::prelude::*;

verus! {

/// Milliseconds since the Unix epoch, read from the wall clock.
///
/// Relies on `chrono::Utc::now` and `chrono::DateTime::timestamp_millis`:
/// `now` returns only when the system time is at or after the epoch, so the
/// millisecond count it reports is non-negative. Nothing further can be
/// promised of a clock reading; callers state what holds for every value.
#[verifier::external_body]
pub(crate) fn now_millis() -> (r: i64)
    ensures
        r >= 0,
{
    chrono::Utc::now().timestamp_millis()
}

} // verus!
