//! Access to the server's wall clock. The timestamp on a persisted record
//! is authoritative server time, never client-supplied, so the dispatcher
//! reads the clock here at the moment a record is built.
use vstd::prelude::*;

verus! {

/// Relies on chrono's `From<SystemTime>` conversion, reduced by
/// chrono::DateTime::timestamp_millis to milliseconds since the Unix epoch.
/// The conversion handles a clock set before the epoch by going negative and
/// fails only outside chrono's ±262,143-year range, which no machine's clock
/// reaches, so the call returns on every real clock value. The result depends
/// on the wall clock, so nothing is promised of it.
#[verifier::external_body]
pub(crate) fn utc_now_millis() -> i64 {
    chrono::DateTime::<chrono::Utc>::from(std::time::SystemTime::now()).timestamp_millis()
}

} // verus!
