//! The wall clock, read through chrono.
use vstd::prelude::*;

verus! {

/// Relies on chrono::Utc::now and DateTime::to_rfc3339: the current UTC time
/// as an RFC 3339 text. Nothing is promised of its value.
#[verifier::external_body]
pub(crate) fn now_rfc3339() -> (r: String) {
    chrono::Utc::now().to_rfc3339()
}

} // verus!
