//! The chunk layout check made before a frame is turned into Vortex arrays: every column must
//! have as many chunks as the first, since chunk `i` of every column becomes row batch `i`.
use vstd::prelude::*;
use crate::text::{decimal_chars, decimal_text};

verus! {

/// Two columns of a frame have different chunk counts.
#[derive(Clone, Copy, Debug, PartialEq, Eq, Structural)]
pub struct MisalignedChunks {
    /// The chunk count of the first column.
    pub expected: usize,
    /// The chunk count of the first column that differs from it.
    pub found: usize,
}

/// The text of a chunk layout error.
pub open spec fn misaligned_message(e: MisalignedChunks) -> Seq<char> {
    "vortex write: misaligned chunks ("@ + decimal_chars(e.expected as int) + " vs "@
        + decimal_chars(e.found as int) + "); call `df.rechunk()` first"@
}

impl MisalignedChunks {
    /// A human-readable description of the error.
    pub fn message(&self) -> (r: String)
        ensures
            r@ == misaligned_message(*self),
    {
        let mut m = "vortex write: misaligned chunks (".to_owned();
        m.append(decimal_text(self.expected as i128).as_str());
        m.append(" vs ");
        m.append(decimal_text(self.found as i128).as_str());
        m.append("); call `df.rechunk()` first");
        m
    }
}

/// All chunk counts equal the first.
pub open spec fn chunks_aligned(counts: Seq<usize>) -> bool {
    forall|i: int| 0 <= i < counts.len() ==> #[trigger] counts[i] == counts[0]
}

/// The first index whose chunk count differs from the first column's.
pub open spec fn first_misaligned(counts: Seq<usize>, k: int) -> bool {
    &&& 0 < k < counts.len()
    &&& counts[k] != counts[0]
    &&& forall|i: int| 0 <= i < k ==> #[trigger] counts[i] == counts[0]
}

/// Check that all columns (given by their chunk counts, in column order) have the same number
/// of chunks, and return that number (0 for a frame without columns). Otherwise the error names
/// the first column's count and the first count that differs.
pub fn check_chunk_alignment(chunk_counts: &Vec<usize>) -> (r: Result<usize, MisalignedChunks>)
    ensures
        r is Ok <==> chunks_aligned(chunk_counts@),
        r matches Ok(n) ==> n == (if chunk_counts@.len() == 0 { 0 } else { chunk_counts@[0] }),
        r matches Err(e) ==> e.expected == chunk_counts@[0] && exists|k: int|
            first_misaligned(chunk_counts@, k) && e.found == chunk_counts@[k],
{
    if chunk_counts.len() == 0 {
        return Ok(0);
    }
    let n_chunks = chunk_counts[0];
    let mut i: usize = 1;
    while i < chunk_counts.len()
        invariant
            1 <= i <= chunk_counts@.len(),
            n_chunks == chunk_counts@[0],
            forall|j: int| 0 <= j < i ==> #[trigger] chunk_counts@[j] == n_chunks,
        decreases chunk_counts@.len() - i,
    {
        let nc = chunk_counts[i];
        if nc != n_chunks {
            proof {
                assert(first_misaligned(chunk_counts@, i as int));
            }
            return Err(MisalignedChunks { expected: n_chunks, found: nc });
        }
        i = i + 1;
    }
    Ok(n_chunks)
}

} // verus!
