//! Path computation for the cache tree.
//!
//! Paths are plain strings joined with `/`. Nothing here touches the disk:
//! every function is a pure computation with an exact contract, so the probes
//! and the traversal elsewhere work on paths whose shape is pinned down.

use vstd::prelude::*;
use vstd::string::StrSliceExecFns;
use vstd::string::StringExecFns;
use crate::order::str_eq;

verus! {

/// The single path separator used throughout the engine.
pub open spec fn spec_join(base: Seq<char>, seg: Seq<char>) -> Seq<char> {
    base + "/"@ + seg
}

/// Appends `seg` to `base` with a `/` between them.
pub fn join_path(base: &str, seg: &str) -> (r: String)
    ensures
        r@ == spec_join(base@, seg@),
{
    let mut s = base.to_owned();
    s.append("/");
    s.append(seg);
    s
}

/// The directory that holds the page tiers: `root` itself when no subpath is
/// configured, otherwise `root/<sub>`.
pub open spec fn spec_pages_dir(root: Seq<char>, sub: Seq<char>) -> Seq<char> {
    if sub.len() == 0 {
        root
    } else {
        spec_join(root, sub)
    }
}

/// Computes the pages directory under `root` for the configured subpath.
pub fn pages_dir(root: &str, sub: &str) -> (r: String)
    ensures
        r@ == spec_pages_dir(root@, sub@),
{
    if sub.is_empty() {
        root.to_owned()
    } else {
        join_path(root, sub)
    }
}

/// The file name of the page called `name`: the name with the fixed page
/// extension appended.
pub open spec fn spec_page_file_name(name: Seq<char>) -> Seq<char> {
    name + ".md"@
}

/// Appends the page extension to a page name.
pub fn page_file_name(name: &str) -> (r: String)
    ensures
        r@ == spec_page_file_name(name@),
{
    let mut s = name.to_owned();
    s.append(".md");
    s
}

/// The page name carried by a file name, when the file name ends in the page
/// extension (compared case-exactly): the file name with that extension
/// stripped. A bare `.md` has no name and yields nothing.
pub open spec fn md_stem(file_name: Seq<char>) -> Option<Seq<char>> {
    if file_name.len() >= 4 && file_name.subrange(
        file_name.len() - 3,
        file_name.len() as int,
    ) == ".md"@ {
        Some(file_name.subrange(0, file_name.len() - 3))
    } else {
        None
    }
}

/// Extracts the page name from a file name, or returns `None` when the file
/// is not a page file.
pub fn page_stem(file_name: &str) -> (r: Option<String>)
    ensures
        match r {
            Some(s) => md_stem(file_name@) == Some(s@),
            None => md_stem(file_name@) is None,
        },
{
    let len = file_name.unicode_len();
    if len < 4 {
        return None;
    }
    let suffix = file_name.substring_char(len - 3, len);
    if str_eq(suffix, ".md") {
        Some(file_name.substring_char(0, len - 3).to_owned())
    } else {
        None
    }
}

} // verus!
