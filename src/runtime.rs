//! What the library takes from the running system: the time and fresh ids.

use vstd::prelude::*;

verus! {

/// Relies on uuid's `Uuid::new_v4` for a fresh random id, written in its
/// hyphenated form of 36 characters.
#[verifier::external_body]
pub(crate) fn fresh_id() -> (r: String)
    ensures
        r@.len() == 36,
{
    uuid::Uuid::new_v4().to_string()
}

/// Relies on chrono's `Utc::now`: the current time in milliseconds since the
/// Unix epoch.
#[verifier::external_body]
pub(crate) fn now_millis() -> (r: i64) {
    chrono::Utc::now().timestamp_millis()
}

} // verus!
