//! The wall clock.

use vstd::prelude::*;

verus! {

/// The current instant, in microseconds since the Unix epoch, from
/// `chrono::Utc::now`. Nothing is stated of the value: it is the clock's.
#[verifier::external_body]
pub(crate) fn now_micros() -> i64 {
    chrono::Utc::now().timestamp_micros()
}

} // verus!
