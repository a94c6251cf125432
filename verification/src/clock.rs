//! The system clock.

use vstd::prelude::*;
use crate::models::Timestamp;

verus! {

/// Reads the current time with `chrono::Local::now` and hands it out as
/// seconds and nanoseconds since the Unix epoch. Nothing is claimed of the
/// value, which is whatever the system clock says; the call panics if that
/// clock reads a time before the epoch.
#[verifier::external_body]
pub(crate) fn current_time() -> Timestamp {
    let now = chrono::Local::now();
    Timestamp { secs: now.timestamp(), nanos: now.timestamp_subsec_nanos() }
}

} // verus!
