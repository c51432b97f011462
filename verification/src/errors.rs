//! The failures the engine can report.

use vstd::prelude::*;

verus! {

/// Why the cache root could not be resolved. Everything else the engine
/// reports — a page that is not there, an empty listing, a missing or stale
/// cache — is an ordinary value, not an error.
#[derive(Clone, Copy, Debug, PartialEq, Eq, Structural)]
pub enum ResolutionError {
    /// An override path was supplied but does not exist or is not a
    /// directory.
    InvalidOverride,
    /// No override was supplied and no conventional cache location could be
    /// determined.
    NotConfigured,
}

impl ResolutionError {
    /// A short description for the caller to show.
    pub fn message(&self) -> (r: &'static str)
    {
        match self {
            ResolutionError::InvalidOverride => {
                "cache directory override does not exist or is not a directory"
            }
            ResolutionError::NotConfigured => {
                "could not determine a cache directory"
            }
        }
    }
}

} // verus!
