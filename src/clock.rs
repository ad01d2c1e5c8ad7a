use vstd::prelude::*;

verus! {

/// Relies on chrono's `Utc::now`, read as milliseconds since the Unix epoch
/// through `DateTime::timestamp_millis`. The clock may show any value, so
/// nothing is promised of it.
#[verifier::external_body]
pub(crate) fn current_time_millis() -> (r: i64) {
    chrono::Utc::now().timestamp_millis()
}

} // verus!
