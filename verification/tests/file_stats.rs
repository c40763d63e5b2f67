use polars_vortex::pl_dtype::{DataType, Field, Schema};
use polars_vortex::pl_scalar::AnyValue;
use polars_vortex::read::file_stats::{
    footer_to_table_statistics, idx_column, opt_idx_column, precision_as_exact, pvalue_to_u64,
    scalar_to_typed_column, scalar_value_to_any_value, FileStatistics, Footer, StatValue,
    StatsSet,
};
use polars_vortex::vx_model::{PValue, Precision, ScalarValue};

#[test]
fn scalar_value_int32_exact_converts() {
    let sv = ScalarValue::Primitive(PValue::I32(42));
    let av = scalar_value_to_any_value(&sv, &DataType::Int32);
    assert_eq!(av, Some(StatValue::Value(AnyValue::Int32(42))));
}

#[test]
fn scalar_value_int64_overflow_int8_returns_none() {
    let sv = ScalarValue::Primitive(PValue::I64(i32::MAX as i64 + 1));
    let av = scalar_value_to_any_value(&sv, &DataType::Int8);
    assert_eq!(av, None);
}

#[test]
fn scalar_value_float64_exact_converts() {
    let sv = ScalarValue::Primitive(PValue::F64(3.14f64.to_bits()));
    let av = scalar_value_to_any_value(&sv, &DataType::Float64);
    match av {
        Some(StatValue::Float64Of(PValue::F64(bits))) => assert_eq!(f64::from_bits(bits), 3.14),
        other => panic!("expected a Float64 statistic, got {other:?}"),
    }
}

#[test]
fn scalar_value_string_converts() {
    let sv = ScalarValue::Utf8("hello".to_string());
    let av = scalar_value_to_any_value(&sv, &DataType::String);
    assert_eq!(av, Some(StatValue::Value(AnyValue::String("hello".to_string()))));
}

#[test]
fn scalar_value_bool_converts() {
    let sv = ScalarValue::Bool(true);
    let av = scalar_value_to_any_value(&sv, &DataType::Boolean);
    assert_eq!(av, Some(StatValue::Value(AnyValue::Boolean(true))));
}

#[test]
fn scalar_value_type_mismatch_returns_none() {
    let sv = ScalarValue::Bool(true);
    let av = scalar_value_to_any_value(&sv, &DataType::Int32);
    assert_eq!(av, None);
}

#[test]
fn precision_inexact_returns_none() {
    let p: Precision<ScalarValue> = Precision::Inexact(ScalarValue::Primitive(PValue::I32(42)));
    assert_eq!(precision_as_exact(p), None);
}

#[test]
fn precision_exact_returns_value() {
    let p: Precision<ScalarValue> = Precision::Exact(ScalarValue::Primitive(PValue::I32(42)));
    assert_eq!(precision_as_exact(p), Some(ScalarValue::Primitive(PValue::I32(42))));
}

#[test]
fn pvalue_to_u64_signed_positive_converts() {
    assert_eq!(pvalue_to_u64(PValue::I64(100)), Some(100));
}

#[test]
fn pvalue_to_u64_signed_negative_returns_none() {
    assert_eq!(pvalue_to_u64(PValue::I64(-1)), None);
}

#[test]
fn pvalue_to_u64_float_returns_none() {
    assert_eq!(pvalue_to_u64(PValue::F64(1.0f64.to_bits())), None);
    assert_eq!(pvalue_to_u64(PValue::U8(7)), Some(7));
}

#[test]
fn narrowing_bounds_are_inclusive() {
    let at_max = ScalarValue::Primitive(PValue::I64(127));
    assert_eq!(scalar_value_to_any_value(&at_max, &DataType::Int8), Some(StatValue::Value(AnyValue::Int8(127))));
    let at_min = ScalarValue::Primitive(PValue::I64(-128));
    assert_eq!(scalar_value_to_any_value(&at_min, &DataType::Int8), Some(StatValue::Value(AnyValue::Int8(-128))));
    let below = ScalarValue::Primitive(PValue::I64(-129));
    assert_eq!(scalar_value_to_any_value(&below, &DataType::Int8), None);
    let u = ScalarValue::Primitive(PValue::U64(256));
    assert_eq!(scalar_value_to_any_value(&u, &DataType::UInt8), None);
    let neg_to_unsigned = ScalarValue::Primitive(PValue::I32(-1));
    assert_eq!(scalar_value_to_any_value(&neg_to_unsigned, &DataType::UInt32), None);
}

#[test]
fn unsupported_target_dtype_returns_none() {
    let sv = ScalarValue::Primitive(PValue::I32(1));
    assert_eq!(scalar_value_to_any_value(&sv, &DataType::Date), None);
    assert_eq!(scalar_value_to_any_value(&ScalarValue::Other, &DataType::Int32), None);
}

#[test]
fn index_columns_hold_value_or_null() {
    let c = idx_column("len".to_string(), 12);
    assert_eq!(c.name, "len");
    assert_eq!(c.dtype, DataType::UInt32);
    assert_eq!(c.value, Some(StatValue::Value(AnyValue::UInt32(12))));
    let n = opt_idx_column("a_nc".to_string(), None);
    assert_eq!(n.value, None);
    let t = scalar_to_typed_column("a_min".to_string(), None, &DataType::Int16);
    assert_eq!(t.dtype, DataType::Int16);
    assert_eq!(t.value, None);
}

fn exact(v: ScalarValue) -> Option<Precision<ScalarValue>> {
    Some(Precision::Exact(v))
}

#[test]
fn footer_without_statistics_gives_none() {
    let footer = Footer { row_count: 10, statistics: None };
    let mut schema = Schema::new();
    schema.with_column("a".to_string(), DataType::Int32);
    assert!(footer_to_table_statistics(&footer, &schema).is_none());
}

#[test]
fn footer_statistics_table_layout() {
    let footer = Footer {
        row_count: 3,
        statistics: Some(FileStatistics {
            stats_sets: vec![
                StatsSet {
                    min: exact(ScalarValue::Primitive(PValue::I32(-5))),
                    max: Some(Precision::Inexact(ScalarValue::Primitive(PValue::I32(9)))),
                    null_count: exact(ScalarValue::Primitive(PValue::U64(1))),
                },
                StatsSet {
                    min: exact(ScalarValue::Utf8("apple".to_string())),
                    max: exact(ScalarValue::Utf8("pear".to_string())),
                    null_count: None,
                },
            ],
        }),
    };
    let mut schema = Schema::new();
    schema.with_column("a".to_string(), DataType::Int32);
    schema.with_column("s".to_string(), DataType::String);
    let table = footer_to_table_statistics(&footer, &schema).expect("statistics");
    assert_eq!(table.n_rows, 1);
    let names: Vec<&str> = table.columns.iter().map(|c| c.name.as_str()).collect();
    assert_eq!(names, vec!["len", "a_min", "a_max", "a_nc", "s_min", "s_max", "s_nc"]);
    assert_eq!(table.columns[0].value, Some(StatValue::Value(AnyValue::UInt32(3))));
    assert_eq!(table.columns[1].value, Some(StatValue::Value(AnyValue::Int32(-5))));
    assert_eq!(table.columns[1].dtype, DataType::Int32);
    // An inexact bound is a null cell.
    assert_eq!(table.columns[2].value, None);
    assert_eq!(table.columns[3].value, Some(StatValue::Value(AnyValue::UInt32(1))));
    assert_eq!(table.columns[3].dtype, DataType::UInt32);
    assert_eq!(table.columns[4].value, Some(StatValue::Value(AnyValue::String("apple".to_string()))));
    assert_eq!(table.columns[5].value, Some(StatValue::Value(AnyValue::String("pear".to_string()))));
    assert_eq!(table.columns[6].value, None);
}

#[test]
fn footer_statistics_stop_at_shorter_side() {
    let footer = Footer {
        row_count: 7,
        statistics: Some(FileStatistics {
            stats_sets: vec![StatsSet { min: None, max: None, null_count: None }],
        }),
    };
    let schema_fields = vec![
        Field { name: "x".to_string(), dtype: DataType::Int64 },
        Field { name: "y".to_string(), dtype: DataType::Int64 },
    ];
    let schema = Schema { fields: schema_fields };
    let table = footer_to_table_statistics(&footer, &schema).expect("statistics");
    assert_eq!(table.columns.len(), 4);
    assert_eq!(table.columns[3].name, "x_nc");
}
