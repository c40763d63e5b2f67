//! Options for `sink_vortex` / `write_vortex`.
use vstd::prelude::*;

verus! {

/// Which compression schemes the BtrBlocks sampling compressor may choose from.
#[derive(Clone, Copy, Debug, PartialEq, Eq, Structural)]
pub enum VortexCompression {
    /// The sampling compressor picks an encoding per column.
    BtrBlocks,
    /// No encoding scheme is selected: data is written uncompressed.
    Uncompressed,
}

impl Default for VortexCompression {
    fn default() -> (r: VortexCompression)
        ensures
            r == VortexCompression::BtrBlocks,
    {
        VortexCompression::BtrBlocks
    }
}

/// Write-side options of a Vortex file.
#[derive(Clone, Copy, Debug, PartialEq, Eq, Structural)]
pub struct VortexWriteOptions {
    pub compression: VortexCompression,
    /// Row-block size, the granularity of zone-level pruning; `None` keeps Vortex's default.
    pub row_block_size: Option<u64>,
    /// Embed the Vortex dtype in the file metadata.
    pub include_dtype: bool,
}

impl Default for VortexWriteOptions {
    fn default() -> (r: VortexWriteOptions)
        ensures
            r == (VortexWriteOptions {
                compression: VortexCompression::BtrBlocks,
                row_block_size: None,
                include_dtype: true,
            }),
    {
        VortexWriteOptions { compression: VortexCompression::BtrBlocks, row_block_size: None, include_dtype: true }
    }
}

} // verus!
