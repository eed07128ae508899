//! Wall-clock timestamps.

use vstd::prelude::*;

verus! {

/// The local time of the call as `YYYY-MM-DD HH:MM:SS.mmm`, from
/// `chrono::Local::now` and `DateTime::format`. The text depends on the
/// clock and the time zone, so nothing is claimed of it. The outside
/// function gives up only where the system clock stands before 1970.
#[verifier::external_body]
pub(crate) fn local_timestamp() -> (stamp: String) {
    chrono::Local::now().format("%Y-%m-%d %H:%M:%S%.3f").to_string()
}

/// The time of the call in UTC as RFC 3339 text, from `chrono::Utc::now`
/// and `DateTime::to_rfc3339`. The text depends on the clock, so nothing is
/// claimed of it. The outside function gives up only where the system clock
/// stands before 1970.
#[verifier::external_body]
pub(crate) fn utc_timestamp() -> (stamp: String) {
    chrono::Utc::now().to_rfc3339()
}

} // verus!
