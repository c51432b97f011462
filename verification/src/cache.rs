//! The cache engine: root resolution, page lookup, page listing and the
//! freshness check.

use vstd::prelude::*;
use crate::errors::ResolutionError;
use crate::freshness::{FreshnessState, classify_marker, STALE_THRESHOLD_SECS};
use crate::fsio;
use crate::listing::{strictly_sorted, pages_from_entries};
use crate::paths::{spec_join, spec_pages_dir, spec_page_file_name, join_path, pages_dir,
    page_file_name};
use crate::platform::Platform;

verus! {

/// The name of this application's directory under the user's cache home,
/// used when no override is supplied.
pub const APP_DIR_NAME: &'static str = "tealdeer";

/// Decides the cache root from what the probes and the environment gave:
/// a supplied override is answered exactly — the override itself when the
/// probe found a directory there, `InvalidOverride` when it did not — and
/// only without an override does the conventional location count, its
/// absence being `NotConfigured`.
pub fn decide_root(
    override_dir: Option<String>,
    override_is_dir: bool,
    conventional: Option<String>,
) -> (r: Result<String, ResolutionError>)
    ensures
        r == match override_dir {
            Some(p) => if override_is_dir {
                Result::<String, ResolutionError>::Ok(p)
            } else {
                Result::<String, ResolutionError>::Err(ResolutionError::InvalidOverride)
            },
            None => match conventional {
                Some(h) => Result::<String, ResolutionError>::Ok(h),
                None => Result::<String, ResolutionError>::Err(ResolutionError::NotConfigured),
            },
        },
{
    match override_dir {
        Some(p) => {
            if override_is_dir {
                Ok(p)
            } else {
                Err(ResolutionError::InvalidOverride)
            }
        }
        None => {
            match conventional {
                Some(h) => Ok(h),
                None => Err(ResolutionError::NotConfigured),
            }
        }
    }
}

/// Decides the lookup result from the two candidate paths and what the
/// probes found at them: the platform candidate exactly when it is an
/// existing regular file, otherwise the common candidate exactly when that
/// is one, otherwise absence.
pub fn select_page(
    platform_candidate: Option<String>,
    platform_is_file: bool,
    common_candidate: String,
    common_is_file: bool,
) -> (r: Option<String>)
    ensures
        r == if platform_candidate is Some && platform_is_file {
            platform_candidate
        } else if common_is_file {
            Some(common_candidate)
        } else {
            Option::<String>::None
        },
{
    if platform_is_file {
        if let Some(p) = platform_candidate {
            return Some(p);
        }
    }
    if common_is_file {
        Some(common_candidate)
    } else {
        None
    }
}

/// One configured engine instance.
///
/// The engine never writes: it resolves where the cache root is, and reads
/// pages beneath it. An update step that populates the tree is somebody
/// else's job; the engine assumes the `common`-plus-platform layout under
/// `root/<pages_subdir>` and reports, rather than fails on, a missing or
/// stale tree.
pub struct Cache {
    /// The platform whose page tier is consulted before the common tier.
    pub platform: Platform,
    /// An explicit cache-root path, to be used instead of the conventional
    /// location; it must name an existing directory.
    pub override_dir: Option<String>,
    /// Where the page tiers live below the root, e.g. `tldr-master/pages`;
    /// empty when the tiers sit directly under the root.
    pub pages_subdir: String,
    /// The path below the root whose modification time dates the content,
    /// e.g. `tldr-master`; empty when the root itself is the marker.
    pub marker_subdir: String,
}

impl Cache {
    /// Builds an engine for `platform`, with an optional explicit root and
    /// the configured layout of the tree below the root.
    pub fn new(
        platform: Platform,
        override_dir: Option<String>,
        pages_subdir: String,
        marker_subdir: String,
    ) -> (c: Cache)
        ensures
            c.platform == platform,
            c.override_dir == override_dir,
            c.pages_subdir == pages_subdir,
            c.marker_subdir == marker_subdir,
    {
        Cache { platform, override_dir, pages_subdir, marker_subdir }
    }

    /// The directory that holds the page tiers once the root is `root`.
    pub open spec fn spec_pages_root(self, root: Seq<char>) -> Seq<char> {
        spec_pages_dir(root, self.pages_subdir@)
    }

    /// The path a page named `name` has in this engine's platform tier, when
    /// the platform has one.
    pub open spec fn spec_platform_page(self, root: Seq<char>, name: Seq<char>) -> Option<
        Seq<char>,
    > {
        match self.platform.spec_token() {
            Some(tok) => Some(
                spec_join(spec_join(self.spec_pages_root(root), tok), spec_page_file_name(name)),
            ),
            None => None,
        }
    }

    /// The path a page named `name` has in the common tier.
    pub open spec fn spec_common_page(self, root: Seq<char>, name: Seq<char>) -> Seq<char> {
        spec_join(
            spec_join(self.spec_pages_root(root), "common"@),
            spec_page_file_name(name),
        )
    }

    /// Decides which directory is the cache root.
    ///
    /// A supplied override wins, and is answered exactly: the result is that
    /// very path when the probe finds a directory there, and
    /// `InvalidOverride` — never the conventional location — when it does
    /// not. Without an override the conventional location (this
    /// application's directory under the user's cache home) is computed
    /// without any existence check, and only a host on which it cannot be
    /// determined yields `NotConfigured`.
    pub fn resolve_root(&self) -> (r: Result<String, ResolutionError>)
        ensures
            match self.override_dir {
                Some(p) => match r {
                    Ok(q) => q@ == p@,
                    Err(e) => e == ResolutionError::InvalidOverride,
                },
                None => r matches Err(e) ==> e == ResolutionError::NotConfigured,
            },
    {
        match &self.override_dir {
            Some(p) => {
                let is_dir = fsio::path_is_dir(p.as_str());
                decide_root(Some(p.clone()), is_dir, None)
            }
            None => {
                let dirs = fsio::xdg_base_dirs(APP_DIR_NAME);
                let conventional = fsio::xdg_cache_home(&dirs);
                decide_root(None, false, conventional)
            }
        }
    }

    /// Looks a page up under the resolved `root`.
    ///
    /// The platform tier is probed first, the common tier only when the
    /// platform has no tier or holds no such page; the first hit is
    /// returned, never a mixture. A page that is nowhere is `None`, not an
    /// error. Any returned path is exactly one of the two candidate paths,
    /// and for a platform without a tier it is the common one.
    pub fn find_page(&self, root: &str, name: &str) -> (r: Option<String>)
        ensures
            r matches Some(p) ==> Some(p@) == self.spec_platform_page(root@, name@) || p@
                == self.spec_common_page(root@, name@),
            self.platform.spec_token() is None ==> (r matches Some(p) ==> p@
                == self.spec_common_page(root@, name@)),
    {
        let pages = pages_dir(root, self.pages_subdir.as_str());
        let file_name = page_file_name(name);
        let platform_candidate: Option<String> = match self.platform.token() {
            Some(tok) => Some(
                join_path(join_path(pages.as_str(), tok).as_str(), file_name.as_str()),
            ),
            None => None,
        };
        let platform_is_file = match &platform_candidate {
            Some(p) => fsio::path_is_file(p.as_str()),
            None => false,
        };
        let common_candidate = join_path(
            join_path(pages.as_str(), "common").as_str(),
            file_name.as_str(),
        );
        let common_is_file = fsio::path_is_file(common_candidate.as_str());
        select_page(platform_candidate, platform_is_file, common_candidate, common_is_file)
    }

    /// Computes the common-tier path of the page named `name`, without
    /// checking that anything exists there: the caller intends to create or
    /// open the file either way.
    pub fn locate_for_edit(&self, root: &str, name: &str) -> (r: String)
        ensures
            r@ == self.spec_common_page(root@, name@),
    {
        let pages = pages_dir(root, self.pages_subdir.as_str());
        let file_name = page_file_name(name);
        join_path(join_path(pages.as_str(), "common").as_str(), file_name.as_str())
    }

    /// Enumerates the names of the pages available under the resolved
    /// `root`.
    ///
    /// The walk descends only into the `common` tier and this engine's
    /// platform tier; every other directory is pruned unentered. The names
    /// come back sorted and without duplicates — a page present in both
    /// tiers is listed once — and a root with no matching files yields an
    /// empty listing, not an error.
    pub fn list_pages(&self, root: &str) -> (r: Vec<String>)
        ensures
            strictly_sorted(r@),
            forall|i: int, j: int| 0 <= i < j < r@.len() ==> r@[i]@ != r@[j]@,
    {
        let pages = pages_dir(root, self.pages_subdir.as_str());
        let entries = fsio::walk_page_dirs(pages.as_str(), self.platform.token());
        let names = pages_from_entries(&entries);
        proof {
            crate::listing::lemma_strictly_sorted_distinct(names@);
        }
        names
    }

    /// Reports how fresh the content under the resolved `root` is.
    ///
    /// A marker path that cannot be read is `Missing` — a normal state, not
    /// an error. Otherwise the marker's age decides, and `Stale` always
    /// carries an age strictly over the threshold.
    pub fn check_freshness(&self, root: &str) -> (r: FreshnessState)
        ensures
            r matches FreshnessState::Stale(age) ==> age > STALE_THRESHOLD_SECS,
    {
        let marker = pages_dir(root, self.marker_subdir.as_str());
        let mtime = fsio::path_mtime_unix_secs(marker.as_str());
        let now = fsio::now_unix_secs();
        classify_marker(now, mtime)
    }
}

} // verus!
