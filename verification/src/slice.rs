//! Row slices of a scan: a window counted from the start or from the end of the rows.
use vstd::prelude::*;

verus! {

/// A slice of rows: `len` rows from `offset`, or `len` rows starting `offset_from_end` rows
/// before the end.
#[derive(Clone, Copy, Debug, PartialEq, Eq, Structural)]
pub enum Slice {
    Positive { offset: usize, len: usize },
    Negative { offset_from_end: usize, len: usize },
}

pub open spec fn min_int(a: int, b: int) -> int {
    if a <= b {
        a
    } else {
        b
    }
}

/// The positive slice selecting the same rows of a table of `n_rows` rows, clamped to it.
pub open spec fn restricted_spec(s: Slice, n_rows: usize) -> Slice {
    match s {
        Slice::Positive { offset, len } => {
            let o = min_int(offset as int, n_rows as int);
            Slice::Positive { offset: o as usize, len: min_int(len as int, n_rows - o) as usize }
        },
        Slice::Negative { offset_from_end, len } => if n_rows >= offset_from_end {
            let o = n_rows - offset_from_end;
            Slice::Positive { offset: o as usize, len: min_int(len as int, n_rows - o) as usize }
        } else {
            let skip = offset_from_end - n_rows;
            Slice::Positive {
                offset: 0,
                len: min_int(if len >= skip { len - skip } else { 0 }, n_rows as int) as usize,
            }
        },
    }
}

impl Slice {
    /// Clamp the slice to a table of `n_rows` rows, as a positive slice: rows past the end are
    /// dropped, and a negative slice that starts before the first row loses the rows before it.
    pub fn restrict_to_bounds(self, n_rows: usize) -> (r: Slice)
        ensures
            r == restricted_spec(self, n_rows),
            r is Positive,
            r->Positive_offset + r->Positive_len <= n_rows,
    {
        match self {
            Slice::Positive { offset, len } => {
                let offset = if offset < n_rows {
                    offset
                } else {
                    n_rows
                };
                let rest = n_rows - offset;
                Slice::Positive { offset, len: if len < rest { len } else { rest } }
            },
            Slice::Negative { offset_from_end, len } => {
                if n_rows >= offset_from_end {
                    let offset = n_rows - offset_from_end;
                    let rest = n_rows - offset;
                    Slice::Positive { offset, len: if len < rest { len } else { rest } }
                } else {
                    let n_start_skip = offset_from_end - n_rows;
                    let len = if len >= n_start_skip {
                        len - n_start_skip
                    } else {
                        0
                    };
                    Slice::Positive { offset: 0, len: if len < n_rows { len } else { n_rows } }
                }
            },
        }
    }
}

/// Restricting to the same bounds twice changes nothing the second time.
pub proof fn lemma_restrict_idempotent(s: Slice, n_rows: usize)
    ensures
        restricted_spec(restricted_spec(s, n_rows), n_rows) == restricted_spec(s, n_rows),
{
}

/// A positive slice that already lies within the rows is kept as it is.
pub proof fn lemma_restrict_keeps_in_bounds_slice(offset: usize, len: usize, n_rows: usize)
    requires
        offset + len <= n_rows,
    ensures
        restricted_spec(Slice::Positive { offset, len }, n_rows) == (Slice::Positive { offset, len }),
{
}

/// A negative slice keeps the last rows of the table: it ends at the end of the table when its
/// window reaches it, and never holds more than the `len` rows asked for.
pub proof fn lemma_negative_slice_takes_tail(offset_from_end: usize, len: usize, n_rows: usize)
    requires
        len >= offset_from_end,
    ensures
        restricted_spec(Slice::Negative { offset_from_end, len }, n_rows) matches Slice::Positive {
            offset: o,
            len: l,
        } && o + l == n_rows && l <= len,
{
}

} // verus!
