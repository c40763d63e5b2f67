//! From the public write options to the settings of Vortex's write strategy.
use vstd::prelude::*;
use crate::write::options::{VortexCompression, VortexWriteOptions};

verus! {

/// The BtrBlocks compressor builder a strategy starts from.
#[derive(Clone, Copy, Debug, PartialEq, Eq, Structural)]
pub enum CompressorPreset {
    /// `BtrBlocksCompressorBuilder::default()`: every encoding scheme is allowed.
    Default,
    /// `BtrBlocksCompressorBuilder::empty()`: no encoding scheme is allowed.
    Empty,
}

/// The settings applied to the session's write options: the compressor of the layout strategy,
/// its row-block size (Vortex's default when `None`), and whether the dtype is kept in the file
/// (`exclude_dtype` is applied when it is not).
#[derive(Clone, Copy, Debug, PartialEq, Eq, Structural)]
pub struct WriteStrategyPlan {
    pub compressor: CompressorPreset,
    pub row_block_size: Option<usize>,
    pub include_dtype: bool,
}

/// The compressor preset a compression choice selects.
pub open spec fn compressor_for(c: VortexCompression) -> CompressorPreset {
    match c {
        VortexCompression::BtrBlocks => CompressorPreset::Default,
        VortexCompression::Uncompressed => CompressorPreset::Empty,
    }
}

/// The write-strategy settings for the given options.
pub open spec fn write_plan_spec(opts: VortexWriteOptions) -> WriteStrategyPlan {
    WriteStrategyPlan {
        compressor: compressor_for(opts.compression),
        row_block_size: match opts.row_block_size {
            Some(rbs) => Some(rbs as usize),
            None => None,
        },
        include_dtype: opts.include_dtype,
    }
}

/// Build the write-strategy settings for `opts`: the compressor preset chosen by the
/// compression, the row-block size converted to `usize`, and the dtype flag.
pub fn build_write_options(opts: &VortexWriteOptions) -> (r: WriteStrategyPlan)
    ensures
        r == write_plan_spec(*opts),
{
    let compressor = match opts.compression {
        VortexCompression::BtrBlocks => CompressorPreset::Default,
        VortexCompression::Uncompressed => CompressorPreset::Empty,
    };
    let mut plan = WriteStrategyPlan { compressor, row_block_size: None, include_dtype: true };
    if let Some(rbs) = opts.row_block_size {
        plan.row_block_size = Some(rbs as usize);
    }
    if !opts.include_dtype {
        plan.include_dtype = false;
    }
    plan
}

} // verus!
