//! Lookup engine for a local cache of per-command documentation pages.
//!
//! The cache is a directory tree holding short markdown pages, grouped by
//! operating-system platform with a shared `common` fallback tier. This crate
//! resolves the on-disk cache root, looks up single pages with
//! platform-then-common precedence, enumerates the available page names, and
//! reports how fresh the cached content is.

pub mod cache;
pub mod errors;
pub mod freshness;
pub mod fsio;
pub mod listing;
pub mod order;
pub mod paths;
pub mod platform;

pub use cache::Cache;
pub use errors::ResolutionError;
pub use freshness::FreshnessState;
pub use freshness::STALE_THRESHOLD_SECS;
pub use platform::Platform;
