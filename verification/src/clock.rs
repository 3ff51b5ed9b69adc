//! The wall clock: timestamps for blocks and transactions.

use vstd::prelude::*;

verus! {

/// Relies on chrono::Utc::now().to_rfc3339(): the current time written as an
/// RFC 3339 string. The result depends on the clock, so nothing is stated of
/// it beyond being non-empty, which holds of every RFC 3339 text.
#[verifier::external_body]
pub(crate) fn now_rfc3339() -> (r: String)
    ensures
        r@.len() > 0,
{
    chrono::Utc::now().to_rfc3339()
}

} // verus!
