//! Tests of the engine against a real directory tree.

use tealdeer::cache::Cache;
use tealdeer::errors::ResolutionError;
use tealdeer::freshness::FreshnessState;
use tealdeer::platform::Platform;

const PAGES: &str = "tldr-master/pages";
const MARKER: &str = "tldr-master";

/// Builds the standard tree of the example scenario, plus a `windows` tier
/// and a `common/bar.md`:
/// `common/tar.md`, `common/bar.md`, `linux/tar.md`, `linux/ps.md`,
/// `windows/regedit.md`.
fn page_tree() -> (tempfile::TempDir, String) {
    let dir = tempfile::tempdir().unwrap();
    let root = dir.path().to_str().unwrap().to_string();
    for tier in ["common", "linux", "windows"] {
        fs_extra::dir::create_all(format!("{root}/{PAGES}/{tier}"), false).unwrap();
    }
    for page in ["common/tar.md", "common/bar.md", "linux/tar.md", "linux/ps.md",
        "windows/regedit.md"]
    {
        fs_extra::file::write_all(format!("{root}/{PAGES}/{page}"), "# page\n").unwrap();
    }
    (dir, root)
}

fn cache_for(platform: Platform, root: &str) -> Cache {
    Cache::new(platform, Some(root.to_string()), PAGES.to_string(), MARKER.to_string())
}

#[test]
fn valid_override_resolves_to_exactly_that_path() {
    let (_dir, root) = page_tree();
    let cache = cache_for(Platform::Linux, &root);
    assert_eq!(cache.resolve_root(), Ok(root));
}

#[test]
fn absent_override_path_is_an_invalid_override() {
    let (_dir, root) = page_tree();
    let cache = cache_for(Platform::Linux, &format!("{root}/no-such-dir"));
    assert_eq!(cache.resolve_root(), Err(ResolutionError::InvalidOverride));
}

#[test]
fn override_path_that_is_a_file_is_an_invalid_override() {
    let (_dir, root) = page_tree();
    let cache = cache_for(Platform::Linux, &format!("{root}/{PAGES}/common/tar.md"));
    assert_eq!(cache.resolve_root(), Err(ResolutionError::InvalidOverride));
}

#[test]
fn platform_page_wins_over_common() {
    let (_dir, root) = page_tree();
    let cache = cache_for(Platform::Linux, &root);
    assert_eq!(cache.find_page(&root, "tar"), Some(format!("{root}/{PAGES}/linux/tar.md")));
}

#[test]
fn common_page_is_found_when_platform_has_none() {
    let (_dir, root) = page_tree();
    let cache = cache_for(Platform::Linux, &root);
    assert_eq!(cache.find_page(&root, "bar"), Some(format!("{root}/{PAGES}/common/bar.md")));
}

#[test]
fn unsupported_platform_still_reaches_common() {
    let (_dir, root) = page_tree();
    let cache = cache_for(Platform::Unsupported, &root);
    assert_eq!(cache.find_page(&root, "tar"), Some(format!("{root}/{PAGES}/common/tar.md")));
    assert_eq!(cache.find_page(&root, "ps"), None);
}

#[test]
fn page_in_neither_tier_is_absence_not_error() {
    let (_dir, root) = page_tree();
    let cache = cache_for(Platform::Linux, &root);
    assert_eq!(cache.find_page(&root, "no-such-page"), None);
}

#[test]
fn listing_never_shows_other_platform_tiers() {
    let (_dir, root) = page_tree();
    let cache = cache_for(Platform::Linux, &root);
    let pages = cache.list_pages(&root);
    assert!(!pages.contains(&"regedit".to_string()));
}

#[test]
fn listing_collapses_duplicates_across_tiers() {
    let (_dir, root) = page_tree();
    let cache = cache_for(Platform::Linux, &root);
    let pages = cache.list_pages(&root);
    assert_eq!(pages.iter().filter(|p| p.as_str() == "tar").count(), 1);
}

#[test]
fn listing_is_sorted_and_stable() {
    let (_dir, root) = page_tree();
    let cache = cache_for(Platform::Linux, &root);
    let first = cache.list_pages(&root);
    let second = cache.list_pages(&root);
    assert_eq!(first, vec!["bar", "ps", "tar"]);
    assert_eq!(first, second);
}

#[test]
fn example_scenario() {
    let dir = tempfile::tempdir().unwrap();
    let root = dir.path().to_str().unwrap().to_string();
    for tier in ["common", "linux"] {
        fs_extra::dir::create_all(format!("{root}/{PAGES}/{tier}"), false).unwrap();
    }
    for page in ["common/tar.md", "linux/tar.md", "linux/ps.md"] {
        fs_extra::file::write_all(format!("{root}/{PAGES}/{page}"), "# page\n").unwrap();
    }
    let linux = cache_for(Platform::Linux, &root);
    let macos = cache_for(Platform::MacOS, &root);
    assert_eq!(linux.find_page(&root, "tar"), Some(format!("{root}/{PAGES}/linux/tar.md")));
    assert_eq!(macos.find_page(&root, "tar"), Some(format!("{root}/{PAGES}/common/tar.md")));
    assert_eq!(linux.list_pages(&root), vec!["ps", "tar"]);
}

#[test]
fn missing_marker_reports_missing() {
    let dir = tempfile::tempdir().unwrap();
    let root = dir.path().to_str().unwrap().to_string();
    let cache = cache_for(Platform::Linux, &root);
    assert_eq!(cache.check_freshness(&root), FreshnessState::Missing);
}

#[test]
fn freshly_written_marker_reports_fresh() {
    let (_dir, root) = page_tree();
    let cache = cache_for(Platform::Linux, &root);
    assert_eq!(cache.check_freshness(&root), FreshnessState::Fresh);
}

#[test]
fn empty_subpaths_use_the_root_itself() {
    let dir = tempfile::tempdir().unwrap();
    let root = dir.path().to_str().unwrap().to_string();
    fs_extra::dir::create_all(format!("{root}/common"), false).unwrap();
    fs_extra::file::write_all(format!("{root}/common/du.md"), "# du\n").unwrap();
    let cache = Cache::new(Platform::Linux, Some(root.clone()), String::new(), String::new());
    assert_eq!(cache.find_page(&root, "du"), Some(format!("{root}/common/du.md")));
    assert_eq!(cache.list_pages(&root), vec!["du"]);
    assert_eq!(cache.check_freshness(&root), FreshnessState::Fresh);
}
