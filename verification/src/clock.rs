//! The wall clock.

use chrono::Utc;
use vstd::prelude::*;

verus! {

/// The current time in milliseconds since the Unix epoch, read with
/// `chrono::Utc::now`. The value depends on the machine's clock, so nothing
/// is claimed of it.
#[verifier::external_body]
pub(crate) fn now_millis() -> (t: i64) {
    Utc::now().timestamp_millis()
}

} // verus!
