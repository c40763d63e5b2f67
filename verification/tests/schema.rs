use polars_vortex::arrow_model::{ArrowDataType, ArrowField, ArrowTimeUnit};
use polars_vortex::read::schema::{
    arrow_dtypes_from_schema, vortex_dtype_to_arrow_dtype, vortex_dtype_to_schema,
    vortex_time_unit_to_arrow, SchemaError,
};
use polars_vortex::vx_model::{Nullability, PType, TemporalMetadata, VDType, VExtDType, VStructField, VTimeUnit};

fn field(name: &str, dtype: VDType) -> VStructField {
    VStructField { name: name.to_string(), dtype }
}

#[test]
fn primitives_map_correctly() {
    let cases = [
        (PType::U8, ArrowDataType::UInt8),
        (PType::U16, ArrowDataType::UInt16),
        (PType::U32, ArrowDataType::UInt32),
        (PType::U64, ArrowDataType::UInt64),
        (PType::I8, ArrowDataType::Int8),
        (PType::I16, ArrowDataType::Int16),
        (PType::I32, ArrowDataType::Int32),
        (PType::I64, ArrowDataType::Int64),
        (PType::F16, ArrowDataType::Float16),
        (PType::F32, ArrowDataType::Float32),
        (PType::F64, ArrowDataType::Float64),
    ];
    for (vortex_ptype, expected_arrow) in cases {
        let dt = VDType::Primitive(vortex_ptype, Nullability::Nullable);
        assert_eq!(
            vortex_dtype_to_arrow_dtype(&dt).unwrap(),
            expected_arrow,
            "{vortex_ptype:?} should map to {expected_arrow:?}"
        );
    }
}

#[test]
fn utf8_and_binary_become_view_variants() {
    let utf8 = VDType::Utf8(Nullability::Nullable);
    assert_eq!(vortex_dtype_to_arrow_dtype(&utf8).unwrap(), ArrowDataType::Utf8View);
    let bin = VDType::Binary(Nullability::Nullable);
    assert_eq!(vortex_dtype_to_arrow_dtype(&bin).unwrap(), ArrowDataType::BinaryView);
}

#[test]
fn top_level_must_be_struct() {
    let not_struct = VDType::Bool(Nullability::Nullable);
    let err = vortex_dtype_to_schema(&not_struct).unwrap_err();
    let msg = err.message();
    assert!(msg.contains("DType::Struct"), "error should mention DType::Struct, got: {msg}");
}

#[test]
fn top_level_struct_must_be_non_nullable() {
    let nullable_struct = VDType::Struct(vec![field("x", VDType::Bool(Nullability::Nullable))], Nullability::Nullable);
    let err = vortex_dtype_to_schema(&nullable_struct).unwrap_err();
    let msg = err.message();
    assert!(msg.contains("must be NonNullable"), "error should explain nullability constraint, got: {msg}");
}

#[test]
fn variant_dtype_errors_with_clear_message() {
    let dt = VDType::Variant(Nullability::Nullable);
    let err = vortex_dtype_to_arrow_dtype(&dt).unwrap_err();
    let msg = err.message();
    assert!(msg.contains("Variant"), "error should mention Variant, got: {msg}");
}

#[test]
fn null_dtype_maps_to_arrow_null() {
    assert_eq!(vortex_dtype_to_arrow_dtype(&VDType::Null).unwrap(), ArrowDataType::Null);
}

#[test]
fn bool_maps_to_arrow_boolean() {
    let dt = VDType::Bool(Nullability::Nullable);
    assert_eq!(vortex_dtype_to_arrow_dtype(&dt).unwrap(), ArrowDataType::Boolean);
    let dt = VDType::Bool(Nullability::NonNullable);
    assert_eq!(vortex_dtype_to_arrow_dtype(&dt).unwrap(), ArrowDataType::Boolean);
}

#[test]
fn decimal_precision_chooses_128_or_256() {
    let small = VDType::Decimal(10, 2, Nullability::Nullable);
    assert_eq!(vortex_dtype_to_arrow_dtype(&small).unwrap(), ArrowDataType::Decimal(10, 2));
    let boundary = VDType::Decimal(38, 0, Nullability::Nullable);
    assert_eq!(vortex_dtype_to_arrow_dtype(&boundary).unwrap(), ArrowDataType::Decimal(38, 0));
    let large = VDType::Decimal(39, 5, Nullability::Nullable);
    assert_eq!(vortex_dtype_to_arrow_dtype(&large).unwrap(), ArrowDataType::Decimal256(39, 5));
}

#[test]
fn decimal_with_negative_scale_errors_cleanly() {
    let dt = VDType::Decimal(10, -2, Nullability::Nullable);
    let err = vortex_dtype_to_arrow_dtype(&dt).unwrap_err();
    let msg = err.message();
    assert!(msg.contains("negative scale"), "error should mention 'negative scale', got: {msg}");
}

#[test]
fn list_maps_through_recursively() {
    let inner = VDType::Primitive(PType::I32, Nullability::Nullable);
    let list = VDType::List(Box::new(inner), Nullability::Nullable);
    match vortex_dtype_to_arrow_dtype(&list).unwrap() {
        ArrowDataType::List(field) => {
            assert_eq!(field.name.as_str(), "item");
            assert!(field.is_nullable);
            assert_eq!(field.dtype, ArrowDataType::Int32);
        },
        other => panic!("expected List, got {:?}", other),
    }
}

#[test]
fn fixed_size_list_maps_through_recursively() {
    let inner = VDType::Primitive(PType::F64, Nullability::NonNullable);
    let fsl = VDType::FixedSizeList(Box::new(inner), 4, Nullability::Nullable);
    match vortex_dtype_to_arrow_dtype(&fsl).unwrap() {
        ArrowDataType::FixedSizeList(field, size) => {
            assert_eq!(size, 4);
            assert_eq!(field.dtype, ArrowDataType::Float64);
            assert!(!field.is_nullable);
        },
        other => panic!("expected FixedSizeList, got {:?}", other),
    }
}

#[test]
fn struct_maps_to_arrow_struct() {
    let dt = VDType::Struct(
        vec![
            field("a", VDType::Primitive(PType::I64, Nullability::Nullable)),
            field("b", VDType::Utf8(Nullability::Nullable)),
        ],
        Nullability::Nullable,
    );
    match vortex_dtype_to_arrow_dtype(&dt).unwrap() {
        ArrowDataType::Struct(field_vec) => {
            assert_eq!(field_vec.len(), 2);
            assert_eq!(field_vec[0].name.as_str(), "a");
            assert_eq!(field_vec[0].dtype, ArrowDataType::Int64);
            assert_eq!(field_vec[1].name.as_str(), "b");
            assert_eq!(field_vec[1].dtype, ArrowDataType::Utf8View);
        },
        other => panic!("expected Struct, got {:?}", other),
    }
}

fn temporal(t: TemporalMetadata) -> VDType {
    VDType::Extension(VExtDType::Temporal(t, Nullability::Nullable))
}

#[test]
fn date_extensions_map_to_arrow_date32_and_date64() {
    let d32 = temporal(TemporalMetadata::Date(VTimeUnit::Days));
    assert_eq!(vortex_dtype_to_arrow_dtype(&d32).unwrap(), ArrowDataType::Date32);
    let d64 = temporal(TemporalMetadata::Date(VTimeUnit::Milliseconds));
    assert_eq!(vortex_dtype_to_arrow_dtype(&d64).unwrap(), ArrowDataType::Date64);
}

#[test]
fn time_extensions_map_to_time32_or_time64() {
    let cases = [
        (VTimeUnit::Seconds, ArrowDataType::Time32(ArrowTimeUnit::Second)),
        (VTimeUnit::Milliseconds, ArrowDataType::Time32(ArrowTimeUnit::Millisecond)),
        (VTimeUnit::Microseconds, ArrowDataType::Time64(ArrowTimeUnit::Microsecond)),
        (VTimeUnit::Nanoseconds, ArrowDataType::Time64(ArrowTimeUnit::Nanosecond)),
    ];
    for (unit, expected) in cases {
        let dt = temporal(TemporalMetadata::Time(unit));
        assert_eq!(vortex_dtype_to_arrow_dtype(&dt).unwrap(), expected, "{unit:?}");
    }
}

#[test]
fn time_extension_days_unit_errors() {
    let dt = temporal(TemporalMetadata::Time(VTimeUnit::Days));
    let err = vortex_dtype_to_arrow_dtype(&dt).unwrap_err();
    assert!(err.message().contains("Days"), "got: {}", err.message());
}

#[test]
fn timestamp_with_and_without_timezone() {
    let ts = temporal(TemporalMetadata::Timestamp(VTimeUnit::Nanoseconds, None));
    match vortex_dtype_to_arrow_dtype(&ts).unwrap() {
        ArrowDataType::Timestamp(unit, tz) => {
            assert_eq!(unit, ArrowTimeUnit::Nanosecond);
            assert!(tz.is_none());
        },
        other => panic!("expected Timestamp, got {:?}", other),
    }
    let ts_tz = temporal(TemporalMetadata::Timestamp(VTimeUnit::Microseconds, Some("UTC".to_string())));
    match vortex_dtype_to_arrow_dtype(&ts_tz).unwrap() {
        ArrowDataType::Timestamp(unit, tz) => {
            assert_eq!(unit, ArrowTimeUnit::Microsecond);
            assert_eq!(tz.as_deref(), Some("UTC"));
        },
        other => panic!("expected Timestamp(_, Some(UTC)), got {:?}", other),
    }
}

#[test]
fn vortex_dtype_to_schema_round_trips_nullability() {
    let dt = VDType::Struct(
        vec![
            field("nullable_col", VDType::Primitive(PType::I64, Nullability::Nullable)),
            field("non_nullable_col", VDType::Primitive(PType::I64, Nullability::NonNullable)),
        ],
        Nullability::NonNullable,
    );
    let arrow = vortex_dtype_to_schema(&dt).unwrap();
    assert_eq!(arrow.len(), 2);
    let f0 = &arrow.fields[0];
    let f1 = &arrow.fields[1];
    assert_eq!(f0.name.as_str(), "nullable_col");
    assert!(f0.is_nullable);
    assert_eq!(f1.name.as_str(), "non_nullable_col");
    assert!(!f1.is_nullable);
}

#[test]
fn repeated_struct_field_name_is_kept_once_with_its_last_dtype() {
    let dt = VDType::Struct(
        vec![
            field("a", VDType::Bool(Nullability::Nullable)),
            field("b", VDType::Utf8(Nullability::Nullable)),
            field("a", VDType::Primitive(PType::I8, Nullability::NonNullable)),
        ],
        Nullability::NonNullable,
    );
    let schema = vortex_dtype_to_schema(&dt).unwrap();
    assert_eq!(schema.len(), 2);
    assert_eq!(
        schema.fields[0],
        ArrowField { name: "a".to_string(), dtype: ArrowDataType::Int8, is_nullable: false }
    );
    assert_eq!(schema.fields[1].name, "b");
    assert_eq!(arrow_dtypes_from_schema(&schema), vec![ArrowDataType::Int8, ArrowDataType::Utf8View]);
}

#[test]
fn schema_error_from_a_nested_field_is_reported() {
    let dt = VDType::Struct(
        vec![
            field("ok", VDType::Bool(Nullability::Nullable)),
            field("bad", VDType::Extension(VExtDType::Other("acme.uuid".to_string(), Nullability::Nullable))),
        ],
        Nullability::NonNullable,
    );
    let err = vortex_dtype_to_schema(&dt).unwrap_err();
    assert_eq!(err.message(), "unsupported Vortex extension type \"acme.uuid\"");
    assert!(matches!(err, SchemaError::UnsupportedExtension(_)));
}

#[test]
fn date_in_seconds_is_rejected() {
    let dt = temporal(TemporalMetadata::Date(VTimeUnit::Seconds));
    let err = vortex_dtype_to_arrow_dtype(&dt).unwrap_err();
    assert_eq!(err.message(), "invalid Vortex time unit Seconds for Date extension");
}

#[test]
fn time_unit_days_error_names_the_context() {
    let err = vortex_time_unit_to_arrow(VTimeUnit::Days, "Timestamp").unwrap_err();
    assert_eq!(err.message(), "invalid Vortex time unit Days for Timestamp");
    assert_eq!(vortex_time_unit_to_arrow(VTimeUnit::Seconds, "x").unwrap(), ArrowTimeUnit::Second);
}

#[test]
fn schema_error_messages_carry_details() {
    let err = vortex_dtype_to_schema(&VDType::Bool(Nullability::Nullable)).unwrap_err();
    assert_eq!(err.message(), "only DType::Struct can be the top-level Vortex file schema, got Bool(Nullable)");
    let err = vortex_dtype_to_schema(&VDType::Primitive(PType::I32, Nullability::NonNullable)).unwrap_err();
    assert!(err.message().ends_with("got Primitive(I32, NonNullable)"));
    let err = vortex_dtype_to_arrow_dtype(&VDType::Decimal(10, -2, Nullability::Nullable)).unwrap_err();
    assert_eq!(err.message(), "Vortex decimal with negative scale -2 is not representable in polars-arrow");
    let err = vortex_dtype_to_arrow_dtype(&temporal(TemporalMetadata::Date(VTimeUnit::Nanoseconds))).unwrap_err();
    assert_eq!(err.message(), "invalid Vortex time unit Nanoseconds for Date extension");
    let err = vortex_dtype_to_arrow_dtype(&temporal(TemporalMetadata::Time(VTimeUnit::Days))).unwrap_err();
    assert_eq!(err.message(), "invalid Vortex time unit Days for Time extension");
}


use polars_vortex::read::schema::dtype_debug;
use vortex_array::dtype::{DType as VxDType, DecimalDType, Nullability as VxNullability, PType as VxPType};
use vortex_array::extension::datetime::{Date, Time, TimeUnit as VxTimeUnit, Timestamp};

#[test]
fn dtype_rendering_matches_vortex_debug() {
    let n = VxNullability::Nullable;
    let cases: Vec<(VDType, VxDType)> = vec![
        (VDType::Null, VxDType::Null),
        (VDType::Bool(Nullability::NonNullable), VxDType::Bool(VxNullability::NonNullable)),
        (VDType::Primitive(PType::F16, Nullability::Nullable), VxDType::Primitive(VxPType::F16, n)),
        (VDType::Decimal(10, -2, Nullability::Nullable), VxDType::Decimal(DecimalDType::new(10, -2), n)),
        (VDType::Utf8(Nullability::Nullable), VxDType::Utf8(n)),
        (VDType::Binary(Nullability::Nullable), VxDType::Binary(n)),
        (VDType::Variant(Nullability::Nullable), VxDType::Variant(n)),
        (
            VDType::List(Box::new(VDType::Primitive(PType::I32, Nullability::Nullable)), Nullability::NonNullable),
            VxDType::List(std::sync::Arc::new(VxDType::Primitive(VxPType::I32, n)), VxNullability::NonNullable),
        ),
        (
            VDType::FixedSizeList(Box::new(VDType::Utf8(Nullability::NonNullable)), 4, Nullability::Nullable),
            VxDType::FixedSizeList(std::sync::Arc::new(VxDType::Utf8(VxNullability::NonNullable)), 4, n),
        ),
        (
            temporal(TemporalMetadata::Timestamp(VTimeUnit::Microseconds, Some("Europe/Paris".to_string()))),
            VxDType::Extension(
                Timestamp::new_with_tz(VxTimeUnit::Microseconds, Some(std::sync::Arc::from("Europe/Paris")), n).erased(),
            ),
        ),
        (
            temporal(TemporalMetadata::Timestamp(VTimeUnit::Seconds, None)),
            VxDType::Extension(Timestamp::new(VxTimeUnit::Seconds, n).erased()),
        ),
        (temporal(TemporalMetadata::Date(VTimeUnit::Days)), VxDType::Extension(Date::new(VxTimeUnit::Days, n).erased())),
        (
            temporal(TemporalMetadata::Date(VTimeUnit::Milliseconds)),
            VxDType::Extension(Date::new(VxTimeUnit::Milliseconds, n).erased()),
        ),
        (temporal(TemporalMetadata::Time(VTimeUnit::Seconds)), VxDType::Extension(Time::new(VxTimeUnit::Seconds, n).erased())),
        (
            temporal(TemporalMetadata::Time(VTimeUnit::Nanoseconds)),
            VxDType::Extension(Time::new(VxTimeUnit::Nanoseconds, n).erased()),
        ),
    ];
    for (ours, theirs) in cases {
        assert_eq!(dtype_debug(&ours), format!("{:?}", theirs));
        let err = vortex_dtype_to_schema(&ours).unwrap_err();
        assert_eq!(
            err.message(),
            format!("only DType::Struct can be the top-level Vortex file schema, got {:?}", theirs)
        );
    }
}
