//! Access to the current time.

use vstd::prelude::*;

verus! {

/// Relies on chrono::Utc::now (and DateTime::timestamp): the current time as
/// whole seconds since the Unix epoch. Nothing is assumed of the value;
/// callers state what holds whatever instant comes back.
#[verifier::external_body]
pub(crate) fn now_timestamp() -> i64 {
    chrono::Utc::now().timestamp()
}

} // verus!
