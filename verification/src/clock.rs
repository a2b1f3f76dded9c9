//! The wall clock.

use chrono::Utc;
use vstd::prelude::*;

verus! {

/// `chrono::Utc::now`, read through `DateTime::timestamp_millis`: the
/// milliseconds since the Unix epoch at the moment of the call. Two calls
/// may differ, so nothing is claimed of the value. chrono gives up where the
/// system clock stands before the epoch.
#[verifier::external_body]
pub(crate) fn now_millis() -> (now: i64) {
    Utc::now().timestamp_millis()
}

} // verus!
