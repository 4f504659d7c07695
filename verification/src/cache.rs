//! Configuration for context caching, and the policy that picks a cache
//! lifetime from the size of the cached content.

use vstd::prelude::*;
use crate::error::{Error, ErrorModel};
use crate::text::{has_substring, str_contains};

verus! {

/// Number of seconds in one hour.
pub const HOUR_SECS: u64 = 3600;

/// Number of seconds in one day.
pub const DAY_SECS: u64 = 86400;

/// Cache configuration supplied when new content is cached.
#[derive(Debug, Clone)]
pub struct CacheConfig {
    /// Time to live for cached content (in seconds).
    pub ttl: Option<u64>,
    /// Display name for the cache.
    pub display_name: Option<String>,
}

/// The cache lifetime that `calculate_optimal_ttl` owes for a given content
/// size: one hour up to 50k tokens, four hours up to 200k, twelve hours up to
/// 500k, and a full day beyond that.
pub open spec fn optimal_ttl(token_count: int) -> int {
    if 0 <= token_count <= 50000 {
        HOUR_SECS as int
    } else if 50000 < token_count <= 200000 {
        4 * HOUR_SECS as int
    } else if 200000 < token_count <= 500000 {
        12 * HOUR_SECS as int
    } else {
        DAY_SECS as int
    }
}

/// The model name under which content may be cached: caching needs a pinned
/// release, so a "-latest" model is refused, and a name without a release
/// suffix gets "-001" appended.
pub fn cache_model_name(model_name: &str) -> (r: Result<String, Error>)
    ensures
        has_substring(model_name@, "-latest"@) ==> (r matches Err(e) && e@ == (ErrorModel::Config {
            message: "Context caching requires a stable model version (e.g., gemini-1.5-pro-001)"@,
        })),
        !has_substring(model_name@, "-latest"@) && !has_substring(model_name@, "-00"@) ==> (
        r matches Ok(m) && m@ == model_name@ + "-001"@),
        !has_substring(model_name@, "-latest"@) && has_substring(model_name@, "-00"@) ==> (
        r matches Ok(m) && m@ == model_name@),
{
    if str_contains(model_name, "-latest") {
        Err(
            Error::Config {
                message: String::from_str(
                    "Context caching requires a stable model version (e.g., gemini-1.5-pro-001)",
                ),
            },
        )
    } else if !str_contains(model_name, "-00") {
        let mut name = model_name.to_owned();
        name.append("-001");
        Ok(name)
    } else {
        Ok(model_name.to_owned())
    }
}

/// Pick a time-to-live (in seconds) for cached content based on how many
/// tokens it holds: larger contexts are worth keeping longer.
pub fn calculate_optimal_ttl(token_count: i32) -> (ttl: u64)
    ensures
        ttl == optimal_ttl(token_count as int),
{
    if 0 <= token_count && token_count <= 50000 {
        HOUR_SECS
    } else if 50000 < token_count && token_count <= 200000 {
        HOUR_SECS * 4
    } else if 200000 < token_count && token_count <= 500000 {
        HOUR_SECS * 12
    } else {
        DAY_SECS
    }
}

} // verus!
