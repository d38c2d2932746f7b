//! The wall clock, read in one place.

use vstd::prelude::*;

verus! {

/// Wraps `chrono::Utc::now`, converted by `DateTime::timestamp_micros`: the
/// current time in microseconds since the Unix epoch. Nothing is promised of
/// the value: two readings may differ in either direction. The call supposes
/// a system clock that does not stand before the epoch.
#[verifier::external_body]
pub(crate) fn now_micros() -> (now: i64) {
    chrono::Utc::now().timestamp_micros()
}

} // verus!
