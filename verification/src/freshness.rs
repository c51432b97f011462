//! Classification of cache age.
//!
//! The cache carries a marker path whose modification time tells when the
//! content was last written. A missing marker is a normal, reportable state;
//! an age over a fixed threshold makes the cache stale.

use vstd::prelude::*;

verus! {

/// The age, in seconds, beyond which the cache counts as stale: 30 days.
pub const STALE_THRESHOLD_SECS: u64 = 30 * 24 * 60 * 60;

/// The reported state of the cache content.
#[derive(Clone, Copy, Debug, PartialEq, Eq, Structural)]
pub enum FreshnessState {
    /// The marker exists and its age is within the threshold.
    Fresh,
    /// The marker exists but is older than the threshold; carries its age in
    /// seconds.
    Stale(u64),
    /// The marker path does not exist.
    Missing,
}

/// How a marker of modification time `mtime` is classified at time `now`
/// (both in seconds since the Unix epoch): stale exactly when its age
/// strictly exceeds the threshold, so an age of exactly the threshold is
/// still fresh.
pub open spec fn spec_classify_age(now: int, mtime: int) -> FreshnessState {
    if now - mtime > STALE_THRESHOLD_SECS {
        FreshnessState::Stale((now - mtime) as u64)
    } else {
        FreshnessState::Fresh
    }
}

/// Classifies the age of an existing marker.
pub fn classify_age(now: i64, mtime: i64) -> (r: FreshnessState)
    ensures
        r == spec_classify_age(now as int, mtime as int),
{
    let age: i128 = now as i128 - mtime as i128;
    if age > STALE_THRESHOLD_SECS as i128 {
        proof {
            assert(0 <= now - mtime <= u64::MAX);
        }
        FreshnessState::Stale(age as u64)
    } else {
        FreshnessState::Fresh
    }
}

/// Decides the freshness report from what the marker probe found: `Missing`
/// exactly when there was no modification time to read, otherwise the
/// classification of the marker's age.
pub fn classify_marker(now: i64, mtime: Option<i64>) -> (r: FreshnessState)
    ensures
        r == match mtime {
            Some(m) => spec_classify_age(now as int, m as int),
            None => FreshnessState::Missing,
        },
{
    match mtime {
        Some(m) => classify_age(now, m),
        None => FreshnessState::Missing,
    }
}

} // verus!
