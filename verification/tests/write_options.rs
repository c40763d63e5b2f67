use polars_vortex::write::df_to_stream::{check_chunk_alignment, MisalignedChunks};
use polars_vortex::write::options::{VortexCompression, VortexWriteOptions};
use polars_vortex::write::strategy::{build_write_options, CompressorPreset, WriteStrategyPlan};

#[test]
fn default_write_options() {
    let o = VortexWriteOptions::default();
    assert_eq!(o.compression, VortexCompression::BtrBlocks);
    assert_eq!(o.row_block_size, None);
    assert!(o.include_dtype);
    assert_eq!(VortexCompression::default(), VortexCompression::BtrBlocks);
}

#[test]
fn default_options_keep_vortex_defaults() {
    let plan = build_write_options(&VortexWriteOptions::default());
    assert_eq!(
        plan,
        WriteStrategyPlan { compressor: CompressorPreset::Default, row_block_size: None, include_dtype: true }
    );
}

#[test]
fn uncompressed_small_blocks_without_dtype() {
    let opts = VortexWriteOptions {
        compression: VortexCompression::Uncompressed,
        row_block_size: Some(1024),
        include_dtype: false,
    };
    let plan = build_write_options(&opts);
    assert_eq!(plan.compressor, CompressorPreset::Empty);
    assert_eq!(plan.row_block_size, Some(1024usize));
    assert!(!plan.include_dtype);
}

#[test]
fn aligned_chunks_give_the_chunk_count() {
    assert_eq!(check_chunk_alignment(&vec![]), Ok(0));
    assert_eq!(check_chunk_alignment(&vec![3]), Ok(3));
    assert_eq!(check_chunk_alignment(&vec![2, 2, 2]), Ok(2));
}

#[test]
fn misaligned_chunks_name_the_first_difference() {
    assert_eq!(check_chunk_alignment(&vec![2, 2, 5, 7]), Err(MisalignedChunks { expected: 2, found: 5 }));
    assert_eq!(check_chunk_alignment(&vec![1, 0]), Err(MisalignedChunks { expected: 1, found: 0 }));
}

#[test]
fn misaligned_chunks_message() {
    let e = MisalignedChunks { expected: 2, found: 15 };
    assert_eq!(e.message(), "vortex write: misaligned chunks (2 vs 15); call `df.rechunk()` first");
}
