//! The one look at the wall clock that the store's operations take.

use vstd::prelude::*;

verus! {

/// Relies on `chrono::Utc::now`, read through `DateTime::timestamp_micros`:
/// the current instant as microseconds of Unix time.  Nothing is promised
/// of the value; every caller states what holds whatever instant came back.
#[verifier::external_body]
pub(crate) fn now_timestamp() -> i64 {
    chrono::Utc::now().timestamp_micros()
}

} // verus!
