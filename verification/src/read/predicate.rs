//! Polars scalar → Vortex scalar translation (the literal helper of filter push-down).
//!
//! Every scalar is built `Nullable`: push-down predicates do not carry the column's
//! nullability, and Vortex unifies nullability when comparing against a non-nullable column.
use vstd::prelude::*;
use crate::pl_dtype::{opt_str_view, TimeUnit};
use crate::pl_scalar::{AnyValue, Scalar};
use crate::vx_model::{Nullability, PValue, VScalar, VScalarView, VTimeUnit, vscalar_constructible};
use crate::vx_emit::{vortex_scalar_of, vscalar_to_vortex, vscalar_zoned};
use vortex_array::scalar::Scalar as VortexScalar;

pub mod temporal;

verus! {

/// Vortex time unit of a Polars time unit.
pub open spec fn time_unit_to_vortex(u: TimeUnit) -> VTimeUnit {
    match u {
        TimeUnit::Nanoseconds => VTimeUnit::Nanoseconds,
        TimeUnit::Microseconds => VTimeUnit::Microseconds,
        TimeUnit::Milliseconds => VTimeUnit::Milliseconds,
    }
}

/// Decimal scalar for a Polars `Decimal(precision, scale)`: `None` when precision does not fit in
/// `u8` or scale does not fit in `i8`.
pub open spec fn decimal_vscalar_spec(value: i128, precision: usize, scale: usize, nul: Nullability) -> Option<VScalarView> {
    if precision <= 255 && scale <= 127 {
        Some(VScalarView::Decimal(value, precision as u8, scale as i8, nul))
    } else {
        None
    }
}

/// The Vortex scalar a Polars scalar translates to (`None` for null, 128-bit integers and
/// durations, which Vortex has no literal for, and for decimals whose precision or scale is out
/// of Vortex's integer range).
pub open spec fn scalar_to_vscalar_spec(s: Scalar) -> Option<VScalarView> {
    let nul = Nullability::Nullable;
    match s.value {
        AnyValue::Null => None,
        AnyValue::Boolean(v) => Some(VScalarView::Bool(v, nul)),
        AnyValue::UInt8(v) => Some(VScalarView::Primitive(PValue::U8(v), nul)),
        AnyValue::UInt16(v) => Some(VScalarView::Primitive(PValue::U16(v), nul)),
        AnyValue::UInt32(v) => Some(VScalarView::Primitive(PValue::U32(v), nul)),
        AnyValue::UInt64(v) => Some(VScalarView::Primitive(PValue::U64(v), nul)),
        AnyValue::Int8(v) => Some(VScalarView::Primitive(PValue::I8(v), nul)),
        AnyValue::Int16(v) => Some(VScalarView::Primitive(PValue::I16(v), nul)),
        AnyValue::Int32(v) => Some(VScalarView::Primitive(PValue::I32(v), nul)),
        AnyValue::Int64(v) => Some(VScalarView::Primitive(PValue::I64(v), nul)),
        AnyValue::Float32(b) => Some(VScalarView::Primitive(PValue::F32(b), nul)),
        AnyValue::Float64(b) => Some(VScalarView::Primitive(PValue::F64(b), nul)),
        AnyValue::String(t) => Some(VScalarView::Utf8(t@, nul)),
        AnyValue::Binary(b) => Some(VScalarView::Binary(b@, nul)),
        AnyValue::Date(d) => Some(VScalarView::Date(d, nul)),
        AnyValue::Datetime(v, u, tz) => Some(
            VScalarView::Timestamp(v, time_unit_to_vortex(u), opt_str_view(tz), nul),
        ),
        AnyValue::Time(ns) => Some(VScalarView::Time(ns, nul)),
        AnyValue::Decimal(v, p, sc) => decimal_vscalar_spec(v, p, sc, nul),
        AnyValue::Int128(_) | AnyValue::Duration(_, _) => None,
    }
}

/// The nullability a scalar description is built with.
pub open spec fn vscalar_nullability(v: VScalarView) -> Nullability {
    match v {
        VScalarView::Bool(_, n) => n,
        VScalarView::Primitive(_, n) => n,
        VScalarView::Utf8(_, n) => n,
        VScalarView::Binary(_, n) => n,
        VScalarView::Date(_, n) => n,
        VScalarView::Time(_, n) => n,
        VScalarView::Timestamp(_, _, _, n) => n,
        VScalarView::Decimal(_, _, _, n) => n,
    }
}

/// Every literal is built nullable, and exactly null values, 128-bit integers, durations and
/// decimals whose precision or scale exceed Vortex's integer types stay untranslated.
pub proof fn lemma_scalar_translation(s: Scalar)
    ensures
        scalar_to_vscalar_spec(s) matches Some(v) ==> vscalar_nullability(v) == Nullability::Nullable,
        scalar_to_vscalar_spec(s) is None <==> (s.value is Null || s.value is Int128
            || s.value is Duration || (s.value matches AnyValue::Decimal(_, p, sc) && (p > 255
            || sc > 127))),
{
}

/// Nanoseconds in one step of a Polars time unit.
pub open spec fn polars_unit_nanos(u: TimeUnit) -> int {
    match u {
        TimeUnit::Nanoseconds => 1,
        TimeUnit::Microseconds => 1_000,
        TimeUnit::Milliseconds => 1_000_000,
    }
}

/// Nanoseconds in one step of a Vortex time unit.
pub open spec fn vortex_unit_nanos(u: VTimeUnit) -> int {
    match u {
        VTimeUnit::Nanoseconds => 1,
        VTimeUnit::Microseconds => 1_000,
        VTimeUnit::Milliseconds => 1_000_000,
        VTimeUnit::Seconds => 1_000_000_000,
        VTimeUnit::Days => 86_400_000_000_000,
    }
}

/// Every Polars time unit maps to the Vortex unit of the same length.
pub proof fn lemma_time_unit_same_length(u: TimeUnit)
    ensures
        vortex_unit_nanos(time_unit_to_vortex(u)) == polars_unit_nanos(u),
{
}

/// Temporal literals denote the instant they had in Polars: a datetime becomes a timestamp with the
/// same value in a unit of the same length (so `value × unit` is the same span from the epoch)
/// and the same time zone; a date keeps its day count; a time keeps its nanoseconds.
pub proof fn lemma_temporal_literals_keep_their_instant(s: Scalar)
    ensures
        s.value matches AnyValue::Datetime(v, u, tz) ==> (scalar_to_vscalar_spec(s) matches Some(
            VScalarView::Timestamp(w, vu, vtz, _),
        ) && w == v && vortex_unit_nanos(vu) == polars_unit_nanos(u) && w * vortex_unit_nanos(vu) == v
            * polars_unit_nanos(u) && vtz == opt_str_view(tz)),
        s.value matches AnyValue::Date(d) ==> scalar_to_vscalar_spec(s) matches Some(
            VScalarView::Date(e, _),
        ) && e == d,
        s.value matches AnyValue::Time(ns) ==> scalar_to_vscalar_spec(s) matches Some(
            VScalarView::Time(m, _),
        ) && m == ns,
{
}

/// Translate a Polars scalar into the Vortex scalar that filter push-down uses as a literal.
pub fn polars_scalar_to_vscalar(scalar: &Scalar) -> (r: Option<VScalar>)
    ensures
        r matches Some(v) ==> scalar_to_vscalar_spec(*scalar) == Some(v@),
        r is None ==> scalar_to_vscalar_spec(*scalar) is None,
{
    let nul = Nullability::Nullable;
    match scalar.value() {
        AnyValue::Null => None,
        AnyValue::Boolean(v) => Some(VScalar::Bool(*v, nul)),
        AnyValue::UInt8(v) => Some(VScalar::Primitive(PValue::U8(*v), nul)),
        AnyValue::UInt16(v) => Some(VScalar::Primitive(PValue::U16(*v), nul)),
        AnyValue::UInt32(v) => Some(VScalar::Primitive(PValue::U32(*v), nul)),
        AnyValue::UInt64(v) => Some(VScalar::Primitive(PValue::U64(*v), nul)),
        AnyValue::Int8(v) => Some(VScalar::Primitive(PValue::I8(*v), nul)),
        AnyValue::Int16(v) => Some(VScalar::Primitive(PValue::I16(*v), nul)),
        AnyValue::Int32(v) => Some(VScalar::Primitive(PValue::I32(*v), nul)),
        AnyValue::Int64(v) => Some(VScalar::Primitive(PValue::I64(*v), nul)),
        AnyValue::Float32(b) => Some(VScalar::Primitive(PValue::F32(*b), nul)),
        AnyValue::Float64(b) => Some(VScalar::Primitive(PValue::F64(*b), nul)),
        AnyValue::String(t) => Some(VScalar::Utf8(t.clone(), nul)),
        AnyValue::Binary(b) => Some(VScalar::Binary(b.clone(), nul)),
        AnyValue::Date(days) => Some(temporal::date_vscalar(*days, nul)),
        AnyValue::Datetime(value, unit, tz) => {
            let tz_ref = match tz {
                Some(t) => Some(t),
                None => None,
            };
            Some(temporal::datetime_vscalar(*value, *unit, tz_ref, nul))
        },
        AnyValue::Time(ns) => Some(temporal::time_vscalar(*ns, nul)),
        AnyValue::Decimal(v, p, sc) => temporal::decimal_vscalar(*v, *p, *sc, nul),
        AnyValue::Int128(_) => None,
        AnyValue::Duration(_, _) => None,
    }
}

/// Convert a Polars scalar into a Vortex scalar, built with the matching Vortex constructor: `None`
/// when [`scalar_to_vscalar_spec`] gives no scalar or one that Vortex cannot build (a decimal,
/// datetime or time out of Vortex's range), and when Vortex rejects the time zone of a
/// datetime, which depends on the machine's time-zone database.
pub fn polars_scalar_to_vortex(scalar: &Scalar) -> (r: Option<VortexScalar>)
    ensures
        r matches Some(x) ==> scalar_to_vscalar_spec(*scalar) matches Some(v) && vscalar_constructible(
            v,
        ) && x == vortex_scalar_of(v),
        scalar_to_vscalar_spec(*scalar) matches Some(v) && vscalar_constructible(v) && !vscalar_zoned(
            v,
        ) ==> r is Some,
{
    match polars_scalar_to_vscalar(scalar) {
        Some(v) => if v.is_constructible() {
            vscalar_to_vortex(&v)
        } else {
            None
        },
        None => None,
    }
}

} // verus!
