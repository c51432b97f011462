//! The closed set of platforms a page can be specific to, and the mapping
//! from a platform to the name of its directory tier in the cache.

use vstd::prelude::*;

verus! {

/// A target operating-system platform for page lookup.
///
/// `Unsupported` stands for every host without a platform-specific page tier;
/// for such platforms only the `common` tier is consulted.
#[derive(Clone, Copy, Debug, PartialEq, Eq, Structural)]
pub enum Platform {
    Linux,
    MacOS,
    Unsupported,
}

impl Platform {
    /// The directory name of this platform's tier in the cache, if it has one.
    pub open spec fn spec_token(self) -> Option<Seq<char>> {
        match self {
            Platform::Linux => Some("linux"@),
            Platform::MacOS => Some("osx"@),
            Platform::Unsupported => None,
        }
    }

    /// Returns the directory name of this platform's tier, or `None` when the
    /// platform has no tier of its own.
    pub fn token(self) -> (r: Option<&'static str>)
        ensures
            match r {
                Some(s) => self.spec_token() == Some(s@),
                None => self.spec_token() is None,
            },
    {
        match self {
            Platform::Linux => Some("linux"),
            Platform::MacOS => Some("osx"),
            Platform::Unsupported => None,
        }
    }
}

} // verus!
