//! Readings from the machine's clock and local time zone, taken on trust.

use chrono::TimeZone;
use vstd::prelude::*;

verus! {

/// Relies on chrono::Local::now and chrono::DateTime::timestamp_millis: the
/// current wall-clock instant, as milliseconds since the Unix epoch. Nothing
/// is promised of the value: it is whatever the machine's clock reports.
#[verifier::external_body]
pub(crate) fn local_now_millis() -> (r: i64) {
    chrono::Local::now().timestamp_millis()
}

/// Relies on chrono::TimeZone::timestamp_millis_opt on chrono::Local: whether
/// the millisecond timestamp denotes a single representable local instant —
/// in this chrono version, exactly whether the count lies in the date range
/// chrono can represent, since the local zone never splits a UTC instant.
/// Nothing is promised of the answer: the callers' contracts hold whichever
/// way it falls.
#[verifier::external_body]
pub(crate) fn local_millis_representable(ms: i64) -> (r: bool) {
    match chrono::Local.timestamp_millis_opt(ms) {
        chrono::LocalResult::Single(_) => true,
        _ => false,
    }
}

} // verus!
