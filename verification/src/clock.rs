//! The wall clock, read through `chrono`.

use vstd::prelude::*;

verus! {

/// Calls `chrono::Utc::now()` and renders the instant with its `Display`
/// implementation. The result depends on the time of the call, so nothing is
/// stated of it.
#[verifier::external_body]
pub(crate) fn utc_now_text() -> (r: String) {
    chrono::Utc::now().to_string()
}

} // verus!
