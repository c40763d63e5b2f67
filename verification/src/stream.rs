//! Decisions of the streaming Vortex source and sink: the row range a pre-slice reads, the row
//! count reported without a scan, which source reuses the cached footer, and the morsel sizes
//! the sink takes.
use std::ops::Range;
use vstd::prelude::*;
use crate::read::options::VortexScanOptions;
use crate::slice::{restricted_spec, Slice};

verus! {

/// The positive form of a pre-slice: positive slices are used as given, negative ones are
/// resolved against the file's row count (taken as `usize`).
pub open spec fn positive_pre_slice(slice: Slice, row_count: u64) -> Slice {
    match slice {
        Slice::Positive { .. } => slice,
        Slice::Negative { .. } => restricted_spec(slice, row_count as usize),
    }
}

/// The row range `[offset, offset + len)` of a positive slice, the end saturating at
/// `u64::MAX`.
pub open spec fn slice_range_spec(s: Slice) -> (u64, u64) {
    match s {
        Slice::Positive { offset, len } => (
            offset as u64,
            if offset + len <= u64::MAX { (offset + len) as u64 } else { u64::MAX },
        ),
        Slice::Negative { .. } => (0, 0),
    }
}

/// The row range that a scan with pre-slice `slice` reads from a file of `row_count` rows.
pub fn pre_slice_row_range(slice: Slice, row_count: u64) -> (r: Range<u64>)
    ensures
        (r.start, r.end) == slice_range_spec(positive_pre_slice(slice, row_count)),
{
    let positive = match slice {
        Slice::Positive { .. } => slice,
        Slice::Negative { .. } => slice.restrict_to_bounds(row_count as usize),
    };
    match positive {
        Slice::Positive { offset, len } => {
            let start = offset as u64;
            let end = start.saturating_add(len as u64);
            start..end
        },
        Slice::Negative { .. } => 0..0,
    }
}

/// The row count of a file as a row index (32 bits), saturating at the largest index.
pub fn fast_n_rows_in_file(row_count: u64) -> (r: u32)
    ensures
        r == (if row_count <= u32::MAX { row_count } else { u32::MAX as u64 }),
{
    if row_count <= 0xffff_ffffu64 {
        row_count as u32
    } else {
        u32::MAX
    }
}

/// The footer a source starts from: the footer cached at planning time serves the first source
/// only; the others read their own.
pub fn footer_for_source<T>(scan_source_idx: usize, first_metadata: Option<T>) -> (r: Option<T>)
    ensures
        r == (if scan_source_idx == 0 { first_metadata } else { None }),
{
    if scan_source_idx == 0 {
        first_metadata
    } else {
        None
    }
}

/// What a Vortex scan of one file is asked for: the rows to read and the filter to push down.
#[derive(Debug)]
pub struct ScanRequest<F> {
    pub row_range: Option<Range<u64>>,
    pub filter: Option<F>,
}

/// The request of a scan: the row range of the pre-slice (if any) against the file's row count,
/// and the converted predicate when the options push predicates (none otherwise).
pub fn scan_request<F>(
    options: &VortexScanOptions,
    pre_slice: Option<Slice>,
    row_count: u64,
    converted_filter: Option<F>,
) -> (r: ScanRequest<F>)
    ensures
        r.row_range matches Some(rr) ==> pre_slice matches Some(s) && (rr.start, rr.end)
            == slice_range_spec(positive_pre_slice(s, row_count)),
        r.row_range is None <==> pre_slice is None,
        r.filter == (if options.push_predicate { converted_filter } else { None }),
{
    let row_range = match pre_slice {
        Some(s) => Some(pre_slice_row_range(s, row_count)),
        None => None,
    };
    let filter = if options.push_predicate {
        converted_filter
    } else {
        None
    };
    ScanRequest { row_range, filter }
}

/// What a Vortex file reader can do for the multi-file scan: add a row index, apply a
/// (negative) pre-slice, apply part of a filter, and project mapped columns. It applies no
/// filter in full and takes no external filter mask, so the scan always re-applies the whole
/// predicate after decoding.
#[derive(Clone, Copy, Debug, PartialEq, Eq, Structural)]
pub struct ReaderCapabilities {
    pub row_index: bool,
    pub pre_slice: bool,
    pub negative_pre_slice: bool,
    pub partial_filter: bool,
    pub full_filter: bool,
    pub external_filter_mask: bool,
    pub mapped_column_projection: bool,
}

/// The capabilities of the Vortex reader.
pub fn reader_capabilities() -> (r: ReaderCapabilities)
    ensures
        r == (ReaderCapabilities {
            row_index: true,
            pre_slice: true,
            negative_pre_slice: true,
            partial_filter: true,
            full_filter: false,
            external_filter_mask: false,
            mapped_column_projection: true,
        }),
{
    ReaderCapabilities {
        row_index: true,
        pre_slice: true,
        negative_pre_slice: true,
        partial_filter: true,
        full_filter: false,
        external_filter_mask: false,
        mapped_column_projection: true,
    }
}

/// Where the bytes of a scan source come from.
#[derive(Clone, Copy, Debug, PartialEq, Eq, Structural)]
pub enum ScanSourceKind {
    /// A path without a URL scheme.
    LocalPath,
    /// A path with a URL scheme (object storage).
    RemotePath,
    /// An in-memory buffer.
    Buffer,
    /// An already open file handle.
    OpenFile,
}

/// How a source is read.
#[derive(Clone, Copy, Debug, PartialEq, Eq, Structural)]
pub enum ReadAtKind {
    LocalFile,
    Cloud,
    InMemory,
}

/// A source that the Vortex reader cannot read.
#[derive(Clone, Copy, Debug, PartialEq, Eq, Structural)]
pub enum SourceError {
    /// A remote path, in a build without cloud support.
    CloudDisabled,
    /// An open file handle.
    OpenFileUnsupported,
}

/// The text of a source error.
pub open spec fn source_error_message(e: SourceError) -> Seq<char> {
    match e {
        SourceError::CloudDisabled => "Vortex was built without the `cloud` feature; rebuild Polars with `--features vortex,cloud` to enable S3/GCS/Azure reads."@,
        SourceError::OpenFileUnsupported => "Vortex reads from open File handles are not yet supported; pass a path or in-memory buffer instead."@,
    }
}

impl SourceError {
    /// A human-readable description of the error.
    pub fn message(&self) -> (r: String)
        ensures
            r@ == source_error_message(*self),
    {
        match self {
            SourceError::CloudDisabled => "Vortex was built without the `cloud` feature; rebuild Polars with `--features vortex,cloud` to enable S3/GCS/Azure reads.".to_owned(),
            SourceError::OpenFileUnsupported => "Vortex reads from open File handles are not yet supported; pass a path or in-memory buffer instead.".to_owned(),
        }
    }
}

/// How a source is read: local paths from the file system, remote paths through object storage
/// (only in builds with cloud support), buffers from memory; open file handles are refused.
pub fn read_at_kind(kind: ScanSourceKind, cloud_enabled: bool) -> (r: Result<ReadAtKind, SourceError>)
    ensures
        r == match kind {
            ScanSourceKind::LocalPath => Ok(ReadAtKind::LocalFile),
            ScanSourceKind::RemotePath => if cloud_enabled {
                Ok(ReadAtKind::Cloud)
            } else {
                Err(SourceError::CloudDisabled)
            },
            ScanSourceKind::Buffer => Ok(ReadAtKind::InMemory),
            ScanSourceKind::OpenFile => Err(SourceError::OpenFileUnsupported),
        },
{
    match kind {
        ScanSourceKind::LocalPath => Ok(ReadAtKind::LocalFile),
        ScanSourceKind::RemotePath => {
            if cloud_enabled {
                Ok(ReadAtKind::Cloud)
            } else {
                Err(SourceError::CloudDisabled)
            }
        },
        ScanSourceKind::Buffer => Ok(ReadAtKind::InMemory),
        ScanSourceKind::OpenFile => Err(SourceError::OpenFileUnsupported),
    }
}

/// Where a sink writes.
#[derive(Clone, Copy, Debug, PartialEq, Eq, Structural)]
pub enum SinkTargetKind {
    /// A local file.
    Local,
    /// A cloud writer or another non-local target.
    Remote,
}

/// The Vortex sink cannot write to the target.
#[derive(Clone, Copy, Debug, PartialEq, Eq, Structural)]
pub enum SinkError {
    /// Only local files are written for now.
    LocalOnly,
}

/// The text of a sink error.
pub open spec fn sink_error_message(e: SinkError) -> Seq<char> {
    "Vortex sink only supports local file paths at the moment. Cloud sinks are pending; for now, write locally and upload."@
}

impl SinkError {
    /// A human-readable description of the error.
    pub fn message(&self) -> (r: String)
        ensures
            r@ == sink_error_message(*self),
    {
        "Vortex sink only supports local file paths at the moment. Cloud sinks are pending; for now, write locally and upload.".to_owned()
    }
}

/// Whether the Vortex sink writes to a target: local files only.
pub fn sink_target(kind: SinkTargetKind) -> (r: Result<(), SinkError>)
    ensures
        r == (if kind == SinkTargetKind::Local {
            Ok(())
        } else {
            Err(SinkError::LocalOnly)
        }),
{
    match kind {
        SinkTargetKind::Local => Ok(()),
        SinkTargetKind::Remote => Err(SinkError::LocalOnly),
    }
}

/// How many rows the Vortex sink takes per morsel: at most `max_rows` rows and `max_bytes`
/// bytes, byte-size limits applying from `byte_size_min_rows` rows on, and only full morsels.
#[derive(Clone, Copy, Debug, PartialEq, Eq, Structural)]
pub struct TakeableRows {
    pub max_rows: u32,
    pub max_bytes: u64,
    pub byte_size_min_rows: u32,
    pub allow_non_max_size: bool,
}

/// The sink's morsel sizes for the ideal sizes configured in the environment (rows, bytes): the
/// configured values, or 122 880 rows and no byte limit.
pub fn takeable_rows_provider(num_rows: Option<u32>, num_bytes: Option<u64>) -> (r: TakeableRows)
    requires
        num_rows != Some(0u32),
        num_bytes != Some(0u64),
    ensures
        r.max_rows == match num_rows {
            Some(n) => n,
            None => 122_880,
        },
        r.max_bytes == match num_bytes {
            Some(n) => n,
            None => u64::MAX,
        },
        r.max_rows > 0 && r.max_bytes > 0,
        r.byte_size_min_rows == 16384,
        !r.allow_non_max_size,
{
    let max_rows = match num_rows {
        Some(n) => n,
        None => 122_880,
    };
    let max_bytes = match num_bytes {
        Some(n) => n,
        None => u64::MAX,
    };
    TakeableRows { max_rows, max_bytes, byte_size_min_rows: 16384, allow_non_max_size: false }
}

/// The row range of a negative pre-slice lies within the file: it ends at or before the last
/// row (for a row count that fits in `usize`).
pub proof fn lemma_negative_pre_slice_within_file(offset_from_end: usize, len: usize, row_count: u64)
    requires
        row_count <= usize::MAX,
    ensures
        ({
            let (start, end) = slice_range_spec(
                positive_pre_slice(Slice::Negative { offset_from_end, len }, row_count),
            );
            start <= end <= row_count
        }),
{
}

} // verus!
