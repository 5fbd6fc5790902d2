//! The wall clock, read as milliseconds since the Unix epoch.

use vstd::prelude::*;

verus! {

/// `chrono::Utc::now()` followed by `DateTime::timestamp_millis()`: the
/// current time in milliseconds since 1970-01-01T00:00:00Z.
///
/// The value depends on the machine's clock, so nothing is claimed of it but
/// that it stays below `i64::MAX`: chrono builds the instant from a day count
/// that fits an `i32`, which keeps the millisecond count far inside `i64`.
/// chrono itself gives up when the system clock stands before the epoch.
#[verifier::external_body]
pub(crate) fn now_millis() -> (now: i64)
    ensures
        now < i64::MAX,
{
    chrono::Utc::now().timestamp_millis()
}

} // verus!
