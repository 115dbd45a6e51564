//! The wall clock, in the unit that the store keeps its dates in.

use vstd::prelude::*;

verus! {

/// Reads the system clock through `chrono::Utc::now` and converts the instant
/// with `DateTime::timestamp_millis` to milliseconds since the Unix epoch.
///
/// Nothing is claimed of the value: it differs from call to call.
#[verifier::external_body]
pub(crate) fn now_millis() -> (now: i64) {
    chrono::Utc::now().timestamp_millis()
}

} // verus!
