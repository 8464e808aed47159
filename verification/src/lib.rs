//! Batch resolution and caching engine for a package-registry checker.
//!
//! The crate models the core of a crates.io lookup service: normalizing
//! heterogeneous batch inputs into per-package queries, assembling per-item
//! check results from upstream outcomes, aggregating them into summaries,
//! and caching keyed responses with TTL expiry while recording metrics.
//! Network transport, rendering and configuration loading are left to the
//! surrounding application.

use vstd::prelude::*;

pub mod text;
pub mod utils;
pub mod batch;
pub mod cache;
pub mod checker;
pub mod config;
pub mod error;
pub mod json;
pub mod metrics;
pub mod types;
pub mod urls;

verus! {

/// Default crates.io API base URL.
pub const DEFAULT_API_URL: &'static str = "https://crates.io/api/v1";

/// Default user agent for requests.
pub const DEFAULT_USER_AGENT: &'static str = "crate-checker/0.1.0";

/// Default request timeout in seconds.
pub const DEFAULT_TIMEOUT_SECS: u64 = 30;

/// Default server port.
pub const DEFAULT_SERVER_PORT: u16 = 3000;

/// Saturating addition on `u64`, the arithmetic of the long-lived counters
/// and expiry instants.
pub open spec fn sat_add_u64(a: u64, b: u64) -> u64 {
    if a + b <= u64::MAX {
        (a + b) as u64
    } else {
        u64::MAX
    }
}

/// Saturating multiplication on `u64`.
pub open spec fn sat_mul_u64(a: u64, b: u64) -> u64 {
    if a * b <= u64::MAX {
        (a * b) as u64
    } else {
        u64::MAX
    }
}

} // verus!
