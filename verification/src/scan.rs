//! The user-facing arguments of a lazy Vortex scan and how they become the scan's options.
use vstd::prelude::*;
use crate::pl_dtype::Schema;
use crate::read::options::{VortexCacheMode, VortexScanOptions};
use crate::slice::Slice;

verus! {

/// A row-index column to add to the scan's output: its name and first value.
#[derive(Debug)]
pub struct RowIndex {
    pub name: String,
    pub offset: u32,
}

/// What a scan does with a column of the schema that a file lacks.
#[derive(Clone, Copy, Debug, PartialEq, Eq, Structural)]
pub enum MissingColumnsPolicy {
    /// Fill it with nulls.
    Insert,
    /// Fail.
    Raise,
}

/// Arguments of `LazyFrame::scan_vortex` (those of `ScanArgsParquet`, plus the Vortex knobs).
#[derive(Debug)]
pub struct ScanArgsVortex {
    /// Read at most this many rows.
    pub n_rows: Option<usize>,
    pub row_index: Option<RowIndex>,
    pub schema: Option<Schema>,
    pub rechunk: bool,
    pub cache: bool,
    /// Expand the path by globbing rules.
    pub glob: bool,
    pub include_file_paths: Option<String>,
    pub allow_missing_columns: bool,
    pub push_predicate: bool,
    pub initial_read_size: Option<usize>,
    /// A positive count when given.
    pub scan_concurrency: Option<usize>,
    pub segment_cache: VortexCacheMode,
}

impl ScanArgsVortex {
    /// The scan concurrency, when given, is positive.
    pub open spec fn wf(&self) -> bool {
        self.scan_concurrency != Some(0usize)
    }
}

impl Default for ScanArgsVortex {
    fn default() -> (r: ScanArgsVortex)
        ensures
            r.n_rows is None,
            r.row_index is None,
            r.schema is None,
            !r.rechunk,
            r.cache,
            r.glob,
            r.include_file_paths is None,
            !r.allow_missing_columns,
            r.push_predicate,
            r.initial_read_size is None,
            r.scan_concurrency is None,
            r.segment_cache == VortexCacheMode::Global,
            r.wf(),
    {
        ScanArgsVortex {
            n_rows: None,
            row_index: None,
            schema: None,
            rechunk: false,
            cache: true,
            glob: true,
            include_file_paths: None,
            allow_missing_columns: false,
            push_predicate: true,
            initial_read_size: None,
            scan_concurrency: None,
            segment_cache: VortexCacheMode::Global,
        }
    }
}

/// A lazy Vortex scan as the planner receives it: the Vortex options, the generic scan
/// arguments derived from the user's arguments, and the row index applied on top of the scan.
#[derive(Debug)]
pub struct VortexScanPlan {
    pub options: VortexScanOptions,
    /// The first `n_rows` rows, when a row limit is given.
    pub pre_slice: Option<Slice>,
    pub missing_columns: MissingColumnsPolicy,
    pub rechunk: bool,
    pub cache: bool,
    pub glob: bool,
    pub include_file_paths: Option<String>,
    pub row_index: Option<RowIndex>,
}

/// The pre-slice of a row limit: `len` rows from the start.
pub open spec fn pre_slice_spec(n_rows: Option<usize>) -> Option<Slice> {
    match n_rows {
        Some(len) => Some(Slice::Positive { offset: 0, len }),
        None => None,
    }
}

impl ScanArgsVortex {
    /// Split the arguments into the Vortex scan options and the generic scan arguments: the row
    /// limit becomes a positive pre-slice from row 0, and `allow_missing_columns` chooses
    /// between inserting and rejecting missing columns; the rest is passed through.
    pub fn into_scan_plan(self) -> (r: VortexScanPlan)
        requires
            self.wf(),
        ensures
            r.options.schema == self.schema,
            r.options.push_predicate == self.push_predicate,
            r.options.initial_read_size == self.initial_read_size,
            r.options.scan_concurrency == self.scan_concurrency,
            r.options.segment_cache == self.segment_cache,
            r.options.wf(),
            r.pre_slice == pre_slice_spec(self.n_rows),
            r.missing_columns == (if self.allow_missing_columns {
                MissingColumnsPolicy::Insert
            } else {
                MissingColumnsPolicy::Raise
            }),
            r.rechunk == self.rechunk,
            r.cache == self.cache,
            r.glob == self.glob,
            r.include_file_paths == self.include_file_paths,
            r.row_index == self.row_index,
    {
        let options = VortexScanOptions {
            schema: self.schema,
            push_predicate: self.push_predicate,
            initial_read_size: self.initial_read_size,
            scan_concurrency: self.scan_concurrency,
            segment_cache: self.segment_cache,
        };
        let pre_slice = match self.n_rows {
            Some(len) => Some(Slice::Positive { offset: 0, len }),
            None => None,
        };
        let missing_columns = if self.allow_missing_columns {
            MissingColumnsPolicy::Insert
        } else {
            MissingColumnsPolicy::Raise
        };
        VortexScanPlan {
            options,
            pre_slice,
            missing_columns,
            rechunk: self.rechunk,
            cache: self.cache,
            glob: self.glob,
            include_file_paths: self.include_file_paths,
            row_index: self.row_index,
        }
    }
}

} // verus!
