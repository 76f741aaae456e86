//! Wall-clock readings, through chrono.
//!
//! What the clock returns depends on the moment of the call and on the
//! machine's time zone, so nothing is promised of these values; callers
//! treat them as opaque inputs.

use vstd::prelude::*;

verus! {

/// Relies on std's SystemTime::now and SystemTime::duration_since: the
/// moment of the call, in whole milliseconds since the epoch, truncated to
/// the machine's integers; a clock set before the epoch reads as zero.
/// Never panics: the only failure `duration_since` reports is the
/// before-epoch case, converted here to zero.
#[verifier::external_body]
fn system_now_unix_ms() -> u64 {
    match std::time::SystemTime::now().duration_since(std::time::UNIX_EPOCH) {
        Ok(elapsed) => elapsed.as_millis() as u64,
        Err(_) => 0,
    }
}

/// Relies on chrono's TimeZone::timestamp_millis_opt on the local time
/// zone, converted to a plain value by DateTime::to_rfc3339: the instant
/// written in the RFC 3339 shape in the machine's local time zone; empty on
/// an out-of-range number of milliseconds; where the local instant is
/// ambiguous, the earlier reading.
#[verifier::external_body]
pub fn rfc3339_from_millis(ms: i64) -> String {
    match chrono::TimeZone::timestamp_millis_opt(&chrono::Local, ms) {
        chrono::LocalResult::None => String::new(),
        chrono::LocalResult::Single(dt) => dt.to_rfc3339(),
        chrono::LocalResult::Ambiguous(dt, _) => dt.to_rfc3339(),
    }
}

/// The moment of the call, in milliseconds since the epoch; zero for a
/// clock set before the epoch.
pub fn now_unix_ms() -> u64 {
    system_now_unix_ms()
}

} // verus!
