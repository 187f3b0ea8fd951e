//! The current time, from the system clock.

use vstd::prelude::*;

verus! {

/// Calls `chrono::Utc::now().timestamp_millis()`: the current time in
/// milliseconds since the Unix epoch. Nothing is promised of the value; two
/// calls may return anything.
#[verifier::external_body]
pub(crate) fn now_millis() -> (res: i64) {
    chrono::Utc::now().timestamp_millis()
}

} // verus!
