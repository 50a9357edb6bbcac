use vstd::prelude::*;

verus! {

/// Relies on chrono::Utc::now and chrono::DateTime::to_rfc3339: the
/// current UTC time rendered as an RFC 3339 timestamp. The result
/// depends on the clock, so nothing is promised of it.
#[verifier::external_body]
pub(crate) fn utc_now_rfc3339() -> String {
    chrono::Utc::now().to_rfc3339()
}

} // verus!
