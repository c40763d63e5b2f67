use polars_vortex::pl_dtype::{cast_kind_compatible, dtype_eq, struct_field_exists, DataType, Field, Schema, TimeUnit};

#[test]
fn with_column_then_get() {
    let mut s = Schema::new();
    s.with_column("a".to_string(), DataType::Int32);
    s.with_column("b".to_string(), DataType::String);
    s.with_column("a".to_string(), DataType::Float64);
    assert_eq!(s.len(), 2);
    assert_eq!(s.get(&"a".to_string()), Some(&DataType::Float64));
    assert_eq!(s.get(&"b".to_string()), Some(&DataType::String));
    assert_eq!(s.get(&"c".to_string()), None);
    assert_eq!(s.fields[0].name, "a");
}

#[test]
fn cast_kinds() {
    assert!(cast_kind_compatible(&DataType::Int8, &DataType::Float32));
    assert!(cast_kind_compatible(&DataType::Boolean, &DataType::Boolean));
    assert!(!cast_kind_compatible(&DataType::Int8, &DataType::Boolean));
    assert!(!cast_kind_compatible(&DataType::String, &DataType::UInt64));
}

#[test]
fn struct_fields_and_equality() {
    let st = DataType::Struct(vec![Field { name: "x".to_string(), dtype: DataType::Date }]);
    assert!(struct_field_exists(&st, &"x".to_string()));
    assert!(!struct_field_exists(&st, &"y".to_string()));
    assert!(!struct_field_exists(&DataType::Int32, &"x".to_string()));
    let a = DataType::Datetime(TimeUnit::Milliseconds, Some("UTC".to_string()));
    let b = DataType::Datetime(TimeUnit::Milliseconds, Some("UTC".to_string()));
    let c = DataType::Datetime(TimeUnit::Milliseconds, None);
    assert!(dtype_eq(&a, &b));
    assert!(!dtype_eq(&a, &c));
}
