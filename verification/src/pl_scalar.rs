//! Polars-side scalar values (`polars_core::prelude::AnyValue` / `polars_core::scalar::Scalar`).
//!
//! Floating-point values are held as their IEEE-754 bit patterns (`f32::to_bits` /
//! `f64::to_bits`), which identifies each value exactly.
use vstd::prelude::*;
use crate::pl_dtype::{DataType, TimeUnit};

verus! {

/// A single Polars value.
#[derive(Debug, PartialEq)]
pub enum AnyValue {
    Null,
    Boolean(bool),
    UInt8(u8),
    UInt16(u16),
    UInt32(u32),
    UInt64(u64),
    Int8(i8),
    Int16(i16),
    Int32(i32),
    Int64(i64),
    Int128(i128),
    /// Bit pattern of an `f32`.
    Float32(u32),
    /// Bit pattern of an `f64`.
    Float64(u64),
    String(String),
    Binary(Vec<u8>),
    /// Days since the Unix epoch.
    Date(i32),
    /// Timestamp value, its unit and its optional time zone.
    Datetime(i64, TimeUnit, Option<String>),
    Duration(i64, TimeUnit),
    /// Nanoseconds since midnight.
    Time(i64),
    /// Unscaled value, precision, scale.
    Decimal(i128, usize, usize),
}

/// A value together with its Polars dtype.
#[derive(Debug)]
pub struct Scalar {
    pub dtype: DataType,
    pub value: AnyValue,
}

impl Scalar {
    pub fn new(dtype: DataType, value: AnyValue) -> (r: Scalar)
        ensures
            r.dtype == dtype,
            r.value == value,
    {
        Scalar { dtype, value }
    }

    pub fn dtype(&self) -> (r: &DataType)
        ensures
            *r == self.dtype,
    {
        &self.dtype
    }

    pub fn value(&self) -> (r: &AnyValue)
        ensures
            *r == self.value,
    {
        &self.value
    }
}

} // verus!
