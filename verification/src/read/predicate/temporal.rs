//! Temporal and decimal literal scalars.
use vstd::prelude::*;
use crate::pl_dtype::{opt_str_view, TimeUnit};
use crate::vx_model::{Nullability, VScalar, VScalarView, VTimeUnit};
use crate::read::predicate::{decimal_vscalar_spec, time_unit_to_vortex};
use crate::vx_emit::{vortex_scalar_of, vscalar_to_vortex};
use crate::vx_model::{decimal_scalar_valid, time_scalar_valid, timestamp_scalar_valid};
use vortex_array::scalar::Scalar as VortexScalar;

verus! {

/// A `vortex.date` scalar in days.
pub fn date_vscalar(days: i32, nul: Nullability) -> (r: VScalar)
    ensures
        r@ == VScalarView::Date(days, nul),
{
    VScalar::Date(days, nul)
}

/// Vortex unit of a Polars unit.
pub fn vortex_time_unit(unit: TimeUnit) -> (r: VTimeUnit)
    ensures
        r == time_unit_to_vortex(unit),
{
    match unit {
        TimeUnit::Nanoseconds => VTimeUnit::Nanoseconds,
        TimeUnit::Microseconds => VTimeUnit::Microseconds,
        TimeUnit::Milliseconds => VTimeUnit::Milliseconds,
    }
}

/// A `vortex.timestamp` scalar with the Polars unit mapped to the same Vortex unit.
pub fn datetime_vscalar(value: i64, unit: TimeUnit, tz: Option<&String>, nul: Nullability) -> (r: VScalar)
    ensures
        r@ == VScalarView::Timestamp(
            value,
            time_unit_to_vortex(unit),
            match tz {
                Some(t) => Some(t@),
                None => None,
            },
            nul,
        ),
{
    let tz_owned = match tz {
        Some(t) => Some(t.clone()),
        None => None,
    };
    VScalar::Timestamp(value, vortex_time_unit(unit), tz_owned, nul)
}

/// A `vortex.time` scalar in nanoseconds (Polars times are always nanoseconds since midnight).
pub fn time_vscalar(ns: i64, nul: Nullability) -> (r: VScalar)
    ensures
        r@ == VScalarView::Time(ns, nul),
{
    VScalar::Time(ns, nul)
}

/// A decimal scalar; `None` when the precision does not fit in `u8` or the scale in `i8`
/// (a wrapping conversion would silently produce a wrong dtype).
pub fn decimal_vscalar(value: i128, precision: usize, scale: usize, nul: Nullability) -> (r: Option<VScalar>)
    ensures
        r matches Some(v) ==> decimal_vscalar_spec(value, precision, scale, nul) == Some(v@),
        r is None ==> decimal_vscalar_spec(value, precision, scale, nul) is None,
{
    if precision > 255 || scale > 127 {
        return None;
    }
    let p = precision as u8;
    let s = scale as i8;
    Some(VScalar::Decimal(value, p, s, nul))
}

/// The `vortex.date` Vortex scalar for a Polars date (days since the epoch).
pub fn date_scalar(days: i32, nul: Nullability) -> (r: Option<VortexScalar>)
    ensures
        r == Some(vortex_scalar_of(VScalarView::Date(days, nul))),
{
    vscalar_to_vortex(&date_vscalar(days, nul))
}

/// The `vortex.timestamp` Vortex scalar for a Polars datetime; `None` when Vortex rejects the
/// time zone, which depends on the machine's time-zone database (never without a time zone).
pub fn datetime_scalar(value: i64, unit: TimeUnit, tz: Option<&String>, nul: Nullability) -> (r: Option<VortexScalar>)
    requires
        timestamp_scalar_valid(value, time_unit_to_vortex(unit)),
    ensures
        r matches Some(x) ==> x == vortex_scalar_of(
            VScalarView::Timestamp(
                value,
                time_unit_to_vortex(unit),
                match tz {
                    Some(t) => Some(t@),
                    None => None,
                },
                nul,
            ),
        ),
        tz is None ==> r is Some,
{
    vscalar_to_vortex(&datetime_vscalar(value, unit, tz, nul))
}

/// The `vortex.time` Vortex scalar for a Polars time (nanoseconds since midnight).
pub fn time_scalar(ns: i64, nul: Nullability) -> (r: Option<VortexScalar>)
    requires
        time_scalar_valid(ns),
    ensures
        r == Some(vortex_scalar_of(VScalarView::Time(ns, nul))),
{
    vscalar_to_vortex(&time_vscalar(ns, nul))
}

/// The Vortex decimal scalar for a Polars decimal; `None` when the precision does not fit in
/// `u8` or the scale in `i8`.
pub fn decimal_scalar(value: i128, precision: usize, scale: usize, nul: Nullability) -> (r: Option<VortexScalar>)
    requires
        precision <= 255 && scale <= 127 ==> decimal_scalar_valid(value, precision as u8, scale as i8),
    ensures
        r == match decimal_vscalar_spec(value, precision, scale, nul) {
            Some(v) => Some(vortex_scalar_of(v)),
            None => None,
        },
        r is Some <==> (precision <= 255 && scale <= 127),
{
    match decimal_vscalar(value, precision, scale, nul) {
        Some(v) => vscalar_to_vortex(&v),
        None => None,
    }
}

} // verus!
