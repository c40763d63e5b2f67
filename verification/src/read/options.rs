//! Options for `scan_vortex` / `read_vortex`.
use std::sync::Arc;
use vstd::prelude::*;
use crate::pl_dtype::Schema;
use crate::session::{PolarsVortexSession, SegmentCache};

verus! {

/// How a scan gets its segment cache.
#[derive(Clone, Copy, Debug, PartialEq, Eq, Structural)]
pub enum VortexCacheMode {
    /// The session's global segment cache.
    Global,
    /// A no-op cache: segments are not kept across queries.
    Off,
    /// A fresh cache of the given byte budget for this scan alone.
    Dedicated(u64),
}

impl Default for VortexCacheMode {
    fn default() -> (r: VortexCacheMode)
        ensures
            r == VortexCacheMode::Global,
    {
        VortexCacheMode::Global
    }
}

/// The cache a mode stands for, given the session's global cache.
pub open spec fn resolved_cache(mode: VortexCacheMode, global: SegmentCache) -> SegmentCache {
    match mode {
        VortexCacheMode::Global => global,
        VortexCacheMode::Off => SegmentCache::NoOp,
        VortexCacheMode::Dedicated(bytes) => SegmentCache::Moka(bytes),
    }
}

impl VortexCacheMode {
    /// The segment cache a scan with this mode uses: the session's global cache (shared, not
    /// copied) for `Global`, a fresh no-op cache for `Off`, and a fresh cache of `bytes` for
    /// `Dedicated(bytes)` (bounded by `bytes` even when it is 0).
    pub fn resolve(self, session: &PolarsVortexSession) -> (r: Arc<SegmentCache>)
        ensures
            *r == resolved_cache(self, session.global_cache()),
    {
        match self {
            VortexCacheMode::Global => session.segment_cache(),
            VortexCacheMode::Off => Arc::new(SegmentCache::NoOp),
            VortexCacheMode::Dedicated(bytes) => Arc::new(SegmentCache::Moka(bytes)),
        }
    }
}

/// The segment cache a file reader uses: the cache resolved when the scan was planned, when the
/// planner passed one on (so the planning-time read and the data read share it), else the
/// scan's cache mode resolved against the session.
pub fn reader_segment_cache(
    planned: Option<Arc<SegmentCache>>,
    mode: VortexCacheMode,
    session: &PolarsVortexSession,
) -> (r: Arc<SegmentCache>)
    ensures
        *r == match planned {
            Some(c) => *c,
            None => resolved_cache(mode, session.global_cache()),
        },
{
    match planned {
        Some(c) => c,
        None => mode.resolve(session),
    }
}

/// Read-side options of a Vortex scan.
#[derive(Debug)]
pub struct VortexScanOptions {
    /// A schema given by the user; when present, schema inference is skipped.
    pub schema: Option<Schema>,
    /// Translate predicates into Vortex expressions and push them into the scan.
    pub push_predicate: bool,
    /// Initial read size for the file's postscript.
    pub initial_read_size: Option<usize>,
    /// Per-file scan concurrency (a positive count); `None` lets Vortex choose.
    pub scan_concurrency: Option<usize>,
    /// How the scan gets its segment cache.
    pub segment_cache: VortexCacheMode,
}

impl VortexScanOptions {
    /// The scan concurrency, when given, is positive.
    pub open spec fn wf(&self) -> bool {
        self.scan_concurrency != Some(0usize)
    }
}

impl Default for VortexScanOptions {
    fn default() -> (r: VortexScanOptions)
        ensures
            r.schema is None,
            r.push_predicate,
            r.initial_read_size is None,
            r.scan_concurrency is None,
            r.segment_cache == VortexCacheMode::Global,
            r.wf(),
    {
        VortexScanOptions {
            schema: None,
            push_predicate: true,
            initial_read_size: None,
            scan_concurrency: None,
            segment_cache: VortexCacheMode::Global,
        }
    }
}

/// The cache a mode gives: `Global` always the session's global cache, whatever it is; `Off`
/// always a no-op cache and `Dedicated(bytes)` always a cache bounded by `bytes`, whatever the
/// global cache is.
pub proof fn lemma_cache_modes(global: SegmentCache, other_global: SegmentCache, bytes: u64)
    ensures
        resolved_cache(VortexCacheMode::Global, global) == global,
        resolved_cache(VortexCacheMode::Off, global) == resolved_cache(VortexCacheMode::Off, other_global),
        resolved_cache(VortexCacheMode::Off, global) == SegmentCache::NoOp,
        resolved_cache(VortexCacheMode::Dedicated(bytes), global) == resolved_cache(
            VortexCacheMode::Dedicated(bytes),
            other_global,
        ),
        resolved_cache(VortexCacheMode::Dedicated(bytes), global) == SegmentCache::Moka(bytes),
{
}

} // verus!
