//! The wall clock.

use vstd::prelude::*;

verus! {

/// Milliseconds since the Unix epoch at the moment of the call, as
/// `chrono::Utc::now().timestamp_millis()` gives them.
///
/// Trusted: nothing is claimed of the value, which differs from call to call.
/// `Utc::now` panics on a machine whose clock stands before 1970.
#[verifier::external_body]
pub(crate) fn utc_now_millis() -> (millis: i64) {
    chrono::Utc::now().timestamp_millis()
}

} // verus!
