//! Wall-clock time.
use vstd::prelude::*;

verus! {

/// Calls `chrono::Utc::now().timestamp()`: the current time in whole seconds
/// since the Unix epoch. Nothing is promised of the value, as it is the time.
#[verifier::external_body]
pub(crate) fn unix_timestamp_now() -> i64 {
    chrono::Utc::now().timestamp()
}

} // verus!
