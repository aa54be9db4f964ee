//! Wall-clock access. Every time-dependent decision in this crate takes the
//! current time as an argument; the functions here only read the clock.

use vstd::prelude::*;

verus! {

/// Milliseconds in one hour.
pub const MILLIS_PER_HOUR: i64 = 3_600_000;

/// Milliseconds in one day.
pub const MILLIS_PER_DAY: i64 = 86_400_000;

/// Reads the current UTC time via `chrono::Utc::now`, in milliseconds since
/// the Unix epoch. Nothing is promised about the value: it is the clock.
#[verifier::external_body]
pub(crate) fn now_millis() -> i64 {
    chrono::Utc::now().timestamp_millis()
}

} // verus!
