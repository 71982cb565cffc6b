//! The wall clock.

use vstd::prelude::*;
use crate::types::Timestamp;

verus! {

/// The current time, from `chrono::Utc::now`.
///
/// Nothing is promised of the value: it depends on the machine's clock.
#[verifier::external_body]
pub(crate) fn now() -> (t: Timestamp) {
    let dt = chrono::Utc::now();
    Timestamp { secs: dt.timestamp(), nanos: dt.timestamp_subsec_nanos() }
}

} // verus!
