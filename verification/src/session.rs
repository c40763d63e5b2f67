//! The Vortex session state that scans share: the segment cache.
//!
//! Decompressed segments are kept in a cache shared by every scan that asks for the global one,
//! so successive queries on the same file reuse them. The global cache is sized in bytes (512 MiB
//! unless the `POLARS_VORTEX_CACHE_BYTES` setting says otherwise); a size of 0 disables caching.
//! The process-wide instance of [`PolarsVortexSession`] lives with the program that embeds the
//! library.
use std::sync::Arc;
use vstd::prelude::*;

verus! {

/// Size of the global segment cache when nothing else is configured: 512 MiB.
pub const DEFAULT_SEGMENT_CACHE_BYTES: u64 = 536870912;

/// A segment cache: one that keeps nothing, or one that keeps decompressed segments up to a
/// byte budget (evicting the least recently used).
#[derive(Debug, PartialEq, Eq, Structural)]
pub enum SegmentCache {
    NoOp,
    Moka(u64),
}

/// The cache that a byte budget asks for: none at 0, else one bounded by the budget.
pub open spec fn cache_for_budget(bytes: u64) -> SegmentCache {
    if bytes == 0 {
        SegmentCache::NoOp
    } else {
        SegmentCache::Moka(bytes)
    }
}

/// The decimal value of a string of ASCII digits.
pub open spec fn decimal_value(s: Seq<char>) -> int
    decreases s.len(),
{
    if s.len() == 0 {
        0
    } else {
        10 * decimal_value(s.drop_last()) + (s.last() as int - '0' as int)
    }
}

pub open spec fn all_ascii_digits(s: Seq<char>) -> bool {
    forall|i: int| 0 <= i < s.len() ==> '0' <= #[trigger] s[i] <= '9'
}

/// What `str::parse::<u64>` gives: an optional `+` followed by one or more ASCII digits whose
/// value fits in 64 bits; anything else (signs, spaces, other characters, overflow) is an error.
pub open spec fn u64_from_decimal(s: Seq<char>) -> Option<u64> {
    let digits = if s.len() > 0 && s[0] == '+' {
        s.drop_first()
    } else {
        s
    };
    if digits.len() > 0 && all_ascii_digits(digits) && decimal_value(digits) <= u64::MAX {
        Some(decimal_value(digits) as u64)
    } else {
        None
    }
}

/// Trusted: std's `str::parse::<u64>`, whose documented grammar is an optional `+` and then
/// only decimal digits, failing on overflow.
#[verifier::external_body]
fn parse_u64(s: &str) -> (r: Option<u64>)
    ensures
        r == u64_from_decimal(s@),
{
    s.parse::<u64>().ok()
}

/// Trusted: std's `Arc::clone`, which hands out another pointer to the same allocation.
#[verifier::external_body]
fn share(cache: &Arc<SegmentCache>) -> (r: Arc<SegmentCache>)
    ensures
        *r == **cache,
{
    Arc::clone(cache)
}

/// The global cache budget for the value of the `POLARS_VORTEX_CACHE_BYTES` setting: the
/// parsed value, or the 512 MiB default when the setting is absent or not a `u64`.
pub fn cache_bytes_setting(value: Option<&str>) -> (r: u64)
    ensures
        r == match value {
            Some(s) => match u64_from_decimal(s@) {
                Some(n) => n,
                None => DEFAULT_SEGMENT_CACHE_BYTES,
            },
            None => DEFAULT_SEGMENT_CACHE_BYTES,
        },
{
    match value {
        Some(s) => match parse_u64(s) {
            Some(n) => n,
            None => DEFAULT_SEGMENT_CACHE_BYTES,
        },
        None => DEFAULT_SEGMENT_CACHE_BYTES,
    }
}

/// A fresh cache for a byte budget: a no-op cache at 0, else a bounded cache of that budget.
pub fn build_cache(bytes: u64) -> (r: Arc<SegmentCache>)
    ensures
        *r == cache_for_budget(bytes),
{
    if bytes == 0 {
        Arc::new(SegmentCache::NoOp)
    } else {
        Arc::new(SegmentCache::Moka(bytes))
    }
}

/// Session state shared by scans: the global segment cache.
#[derive(Debug)]
pub struct PolarsVortexSession {
    global_segment_cache: Arc<SegmentCache>,
}

impl PolarsVortexSession {
    /// The value of the global segment cache.
    pub closed spec fn global_cache(&self) -> SegmentCache {
        *self.global_segment_cache
    }

    /// A session whose global cache has the given byte budget.
    pub fn new(cache_bytes: u64) -> (r: PolarsVortexSession)
        ensures
            r.global_cache() == cache_for_budget(cache_bytes),
    {
        PolarsVortexSession { global_segment_cache: build_cache(cache_bytes) }
    }

    /// The global segment cache (a shared handle, not a copy).
    pub fn segment_cache(&self) -> (r: Arc<SegmentCache>)
        ensures
            *r == self.global_cache(),
    {
        share(&self.global_segment_cache)
    }

    /// Replace the global segment cache with a fresh one of the given byte budget (no-op cache
    /// at 0). Handles given out before keep the cache they had.
    pub fn set_global_cache_bytes(&mut self, bytes: u64)
        ensures
            final(self).global_cache() == cache_for_budget(bytes),
    {
        self.global_segment_cache = build_cache(bytes);
    }
}

} // verus!
