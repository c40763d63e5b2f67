//! The shape check made before a decoded Arrow record batch becomes a Polars frame: the batch
//! must have one column per Polars dtype and per schema column.
use vstd::prelude::*;
use crate::text::{decimal_chars, decimal_text};

verus! {

/// A record batch whose column count does not fit the Polars side.
#[derive(Clone, Copy, Debug, PartialEq, Eq, Structural)]
pub enum BatchShapeError {
    /// The batch has `columns` columns but there are `dtypes` polars-arrow dtypes.
    DtypeCount { columns: usize, dtypes: usize },
    /// The batch has `columns` columns but the Polars schema has `schema_columns`.
    SchemaCount { columns: usize, schema_columns: usize },
}

/// The text of a batch shape error.
pub open spec fn batch_shape_message(e: BatchShapeError) -> Seq<char> {
    match e {
        BatchShapeError::DtypeCount { columns, dtypes } => "vortex bridge: record_batch has "@
            + decimal_chars(columns as int) + " columns but "@ + decimal_chars(dtypes as int)
            + " polars-arrow dtypes"@,
        BatchShapeError::SchemaCount { columns, schema_columns } => "vortex bridge: record_batch has "@
            + decimal_chars(columns as int) + " columns but polars_schema has "@ + decimal_chars(
            schema_columns as int,
        ),
    }
}

impl BatchShapeError {
    /// A human-readable description of the error.
    pub fn message(&self) -> (r: String)
        ensures
            r@ == batch_shape_message(*self),
    {
        let mut m = "vortex bridge: record_batch has ".to_owned();
        match self {
            BatchShapeError::DtypeCount { columns, dtypes } => {
                m.append(decimal_text(*columns as i128).as_str());
                m.append(" columns but ");
                m.append(decimal_text(*dtypes as i128).as_str());
                m.append(" polars-arrow dtypes");
            },
            BatchShapeError::SchemaCount { columns, schema_columns } => {
                m.append(decimal_text(*columns as i128).as_str());
                m.append(" columns but polars_schema has ");
                m.append(decimal_text(*schema_columns as i128).as_str());
            },
        }
        m
    }
}

/// Check a batch of `n_cols` columns against `n_dtypes` polars-arrow dtypes and a Polars
/// schema of `n_schema_cols` columns; the dtype count is checked first.
pub fn check_record_batch_shape(n_cols: usize, n_dtypes: usize, n_schema_cols: usize) -> (r: Result<
    (),
    BatchShapeError,
>)
    ensures
        r == (if n_cols != n_dtypes {
            Err(BatchShapeError::DtypeCount { columns: n_cols, dtypes: n_dtypes })
        } else if n_cols != n_schema_cols {
            Err(BatchShapeError::SchemaCount { columns: n_cols, schema_columns: n_schema_cols })
        } else {
            Ok(())
        }),
{
    if n_cols != n_dtypes {
        return Err(BatchShapeError::DtypeCount { columns: n_cols, dtypes: n_dtypes });
    }
    if n_cols != n_schema_cols {
        return Err(BatchShapeError::SchemaCount { columns: n_cols, schema_columns: n_schema_cols });
    }
    Ok(())
}

} // verus!
