//! The trusted boundary to the file system, the clock and the XDG base
//! directories.
//!
//! Every function here is believed, not verified: each makes one outside
//! call whose result depends on the state of the disk, the environment or
//! the clock, so no contract pins the result down. The verified engine takes
//! these results as arguments and is proved for every value they may have.

use vstd::prelude::*;
use crate::listing::{WalkEntry, entry_allowed};

verus! {

/// Relies on std::path::Path::is_dir: true exactly when the path names an
/// existing directory (following symbolic links).
#[verifier::external_body]
pub(crate) fn path_is_dir(path: &str) -> (r: bool) {
    std::path::Path::new(path).is_dir()
}

/// Relies on std::path::Path::is_file: true exactly when the path names an
/// existing regular file (following symbolic links).
#[verifier::external_body]
pub(crate) fn path_is_file(path: &str) -> (r: bool) {
    std::path::Path::new(path).is_file()
}

/// Relies on walkdir::WalkDir yielding, at depth zero, the entry of the root
/// path itself: returns that entry's modification time in whole seconds
/// since the Unix epoch, or `None` when the path does not exist or its time
/// cannot be read.
#[verifier::external_body]
pub(crate) fn path_mtime_unix_secs(path: &str) -> (r: Option<i64>) {
    walkdir::WalkDir::new(path)
        .max_depth(0)
        .into_iter()
        .next()
        .and_then(|entry| entry.ok())
        .and_then(|entry| entry.metadata().ok())
        .and_then(|meta| meta.modified().ok())
        .and_then(|t| t.duration_since(std::time::UNIX_EPOCH).ok())
        .map(|d| d.as_secs() as i64)
}

/// Relies on time::OffsetDateTime::now_utc and unix_timestamp: the current
/// clock reading in whole seconds since the Unix epoch. Nothing is promised
/// of a clock reading.
#[verifier::external_body]
pub(crate) fn now_unix_secs() -> (r: i64) {
    time::OffsetDateTime::now_utc().unix_timestamp()
}

/// Relies on walkdir::WalkDir with a minimum depth of one and a filter:
/// walks the tree under `pages`, descending only where the verified filter
/// `entry_allowed` admits the entry, and hands back each kept entry's file
/// type and bare name. Unreadable entries and entries whose names are not
/// Unicode are dropped, as the filter and the error conversion decide.
#[verifier::external_body]
pub(crate) fn walk_page_dirs(pages: &str, token: Option<&str>) -> (r: Vec<WalkEntry>) {
    walkdir::WalkDir::new(pages)
        .min_depth(1)
        .into_iter()
        .filter_entry(|e| match e.file_name().to_str() {
            Some(name) => entry_allowed(e.file_type().is_dir(), name, token),
            None => false,
        })
        .filter_map(|e| e.ok())
        .map(|e| WalkEntry {
            is_file: e.file_type().is_file(),
            name: e.file_name().to_str().unwrap_or("").to_string(),
        })
        .collect()
}

#[verifier::external_type_specification]
#[verifier::external_body]
pub struct ExBaseDirectories(xdg::BaseDirectories);

/// Relies on xdg::BaseDirectories::with_prefix: reads the XDG environment,
/// with `prefix` appended to every user directory it reports.
#[verifier::external_body]
pub(crate) fn xdg_base_dirs(prefix: &str) -> (r: xdg::BaseDirectories) {
    xdg::BaseDirectories::with_prefix(prefix)
}

/// Relies on xdg::BaseDirectories::get_cache_home: the user's cache
/// directory for the configured prefix, or `None` when no home directory
/// could be found. A path that is not Unicode is reported as `None` too.
#[verifier::external_body]
pub(crate) fn xdg_cache_home(dirs: &xdg::BaseDirectories) -> (r: Option<String>) {
    dirs.get_cache_home()
        .and_then(|p| p.into_os_string().into_string().ok())
}

} // verus!
