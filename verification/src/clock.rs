//! The wall clock, read as a plain integer.

use vstd::prelude::*;

verus! {

/// Relies on `chrono::Utc::now` and `DateTime::timestamp_millis`: the
/// current wall-clock time as milliseconds since the Unix epoch. The value
/// depends on the machine's clock, so nothing is promised of it; the store
/// keeps per-conversation timestamps ordered whatever this returns.
#[verifier::external_body]
pub(crate) fn now_millis() -> i64 {
    chrono::Utc::now().timestamp_millis()
}

} // verus!
