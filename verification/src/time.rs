//! Access to the wall clock, expressed as seconds since the Unix epoch.

use vstd::prelude::*;

verus! {

/// Relies on chrono::Utc::now: the current wall-clock time. Nothing can be
/// promised of the value, so callers must hold for every outcome; times from
/// before the epoch are reported as zero.
#[verifier::external_body]
pub fn now_secs() -> u64 {
    chrono::Utc::now().timestamp().try_into().unwrap_or(0)
}

} // verus!
