use polars_vortex::pl_dtype::{DataType, TimeUnit};
use polars_vortex::pl_scalar::{AnyValue, Scalar};
use polars_vortex::read::predicate::temporal::{date_scalar, datetime_scalar, decimal_scalar, time_scalar};
use polars_vortex::read::predicate::{polars_scalar_to_vortex, polars_scalar_to_vscalar};
use polars_vortex::vx_model::{Nullability, PValue, VScalar, VTimeUnit};
use vortex_array::dtype::DType;
use vortex_array::scalar::Scalar as VortexScalar;

fn extension_id_of(scalar: &VortexScalar) -> String {
    match scalar.dtype() {
        DType::Extension(ext) => ext.id().to_string(),
        other => panic!("expected Extension dtype, got {:?}", other),
    }
}

#[test]
fn scalar_primitive_types_convert() {
    let s = Scalar::new(DataType::Int32, AnyValue::Int32(42));
    assert!(polars_scalar_to_vortex(&s).is_some());

    let s = Scalar::new(DataType::Float64, AnyValue::Float64(2.5f64.to_bits()));
    assert!(polars_scalar_to_vortex(&s).is_some());

    let s = Scalar::new(DataType::Boolean, AnyValue::Boolean(true));
    assert!(polars_scalar_to_vortex(&s).is_some());

    let s = Scalar::new(DataType::String, AnyValue::String("hello".to_string()));
    assert!(polars_scalar_to_vortex(&s).is_some());
}

#[test]
fn scalar_null_does_not_convert() {
    let s = Scalar::new(DataType::Int32, AnyValue::Null);
    assert!(polars_scalar_to_vortex(&s).is_none());
}

#[test]
fn date_scalar_is_vortex_date_days() {
    let s = date_scalar(19_000, Nullability::Nullable).expect("date scalar");
    assert_eq!(extension_id_of(&s), "vortex.date");
}

#[test]
fn datetime_scalar_units_map_correctly() {
    for unit in [TimeUnit::Nanoseconds, TimeUnit::Microseconds, TimeUnit::Milliseconds] {
        let s = datetime_scalar(0, unit, None, Nullability::Nullable).expect("datetime scalar");
        assert_eq!(extension_id_of(&s), "vortex.timestamp");
    }
}

#[test]
fn datetime_scalar_with_timezone() {
    let utc = "UTC".to_string();
    let s = datetime_scalar(1_700_000_000_000_000_000, TimeUnit::Nanoseconds, Some(&utc), Nullability::Nullable)
        .expect("datetime scalar with tz");
    assert_eq!(extension_id_of(&s), "vortex.timestamp");
}

#[test]
fn time_scalar_is_nanoseconds() {
    let s = time_scalar(60_000_000_000, Nullability::Nullable).expect("time scalar");
    assert_eq!(extension_id_of(&s), "vortex.time");
}

#[test]
fn decimal_scalar_round_trip() {
    let s = decimal_scalar(12345, 10, 2, Nullability::Nullable).expect("decimal scalar");
    match s.dtype() {
        DType::Decimal(dec, _) => {
            assert_eq!(dec.precision(), 10);
            assert_eq!(dec.scale(), 2);
        },
        other => panic!("expected Decimal dtype, got {:?}", other),
    }
}

#[test]
fn decimal_scalar_overflow_returns_none() {
    assert!(decimal_scalar(0, 256, 0, Nullability::Nullable).is_none());
    assert!(decimal_scalar(0, 0, 256, Nullability::Nullable).is_none());
}

#[test]
fn scalars_are_built_nullable_with_their_own_type() {
    let s = Scalar::new(DataType::UInt16, AnyValue::UInt16(9));
    let v = polars_scalar_to_vscalar(&s).expect("converts");
    assert_eq!(format!("{:?}", v), format!("{:?}", VScalar::Primitive(PValue::U16(9), Nullability::Nullable)));
    let vx = polars_scalar_to_vortex(&s).expect("converts");
    assert!(vx.dtype().is_nullable());
}

#[test]
fn datetime_units_map_to_same_vortex_unit() {
    let s = Scalar::new(
        DataType::Datetime(TimeUnit::Microseconds, None),
        AnyValue::Datetime(5, TimeUnit::Microseconds, Some("UTC".to_string())),
    );
    let v = polars_scalar_to_vscalar(&s).expect("converts");
    let expected = VScalar::Timestamp(5, VTimeUnit::Microseconds, Some("UTC".to_string()), Nullability::Nullable);
    assert_eq!(format!("{:?}", v), format!("{:?}", expected));
}

#[test]
fn duration_and_int128_do_not_convert() {
    let d = Scalar::new(DataType::Duration(TimeUnit::Milliseconds), AnyValue::Duration(3, TimeUnit::Milliseconds));
    assert!(polars_scalar_to_vscalar(&d).is_none());
    let i = Scalar::new(DataType::Int128, AnyValue::Int128(3));
    assert!(polars_scalar_to_vscalar(&i).is_none());
}

#[test]
fn float_literal_keeps_its_value() {
    let s = Scalar::new(DataType::Float32, AnyValue::Float32(1.5f32.to_bits()));
    let vx = polars_scalar_to_vortex(&s).expect("converts");
    assert_eq!(format!("{}", vx), format!("{}", VortexScalar::primitive(1.5f32, vortex_array::dtype::Nullability::Nullable)));
}

#[test]
fn datetime_with_unknown_zone_is_not_built() {
    let zone = "Bogus/Zone".to_string();
    assert!(datetime_scalar(0, TimeUnit::Milliseconds, Some(&zone), Nullability::Nullable).is_none());
    let s = Scalar::new(
        DataType::Datetime(TimeUnit::Milliseconds, Some(zone.clone())),
        AnyValue::Datetime(0, TimeUnit::Milliseconds, Some(zone)),
    );
    assert!(polars_scalar_to_vscalar(&s).is_some());
    assert!(polars_scalar_to_vortex(&s).is_none());
}

#[test]
fn out_of_range_literals_are_not_built() {
    let d = Scalar::new(DataType::Decimal(2, 0), AnyValue::Decimal(100, 2, 0));
    assert!(polars_scalar_to_vortex(&d).is_none());
    let ok = Scalar::new(DataType::Decimal(3, 0), AnyValue::Decimal(-999, 3, 0));
    assert!(polars_scalar_to_vortex(&ok).is_some());
    let wide = Scalar::new(DataType::Decimal(76, 0), AnyValue::Decimal(i128::MIN, 76, 0));
    assert!(polars_scalar_to_vortex(&wide).is_some());
    let t = Scalar::new(DataType::Time, AnyValue::Time(86_400_000_000_000));
    assert!(polars_scalar_to_vortex(&t).is_none());
    let ts = Scalar::new(DataType::Datetime(TimeUnit::Nanoseconds, None), AnyValue::Datetime(i64::MIN, TimeUnit::Nanoseconds, None));
    assert!(polars_scalar_to_vortex(&ts).is_none());
}
