use polars_vortex::read::array_bridge::{check_record_batch_shape, BatchShapeError};

#[test]
fn record_batch_shape_checks_dtypes_then_schema() {
    assert_eq!(check_record_batch_shape(3, 3, 3), Ok(()));
    assert_eq!(check_record_batch_shape(3, 2, 1), Err(BatchShapeError::DtypeCount { columns: 3, dtypes: 2 }));
    assert_eq!(check_record_batch_shape(3, 3, 4), Err(BatchShapeError::SchemaCount { columns: 3, schema_columns: 4 }));
}

#[test]
fn record_batch_shape_messages() {
    assert_eq!(
        BatchShapeError::DtypeCount { columns: 3, dtypes: 2 }.message(),
        "vortex bridge: record_batch has 3 columns but 2 polars-arrow dtypes"
    );
    assert_eq!(
        BatchShapeError::SchemaCount { columns: 0, schema_columns: 10 }.message(),
        "vortex bridge: record_batch has 0 columns but polars_schema has 10"
    );
}
