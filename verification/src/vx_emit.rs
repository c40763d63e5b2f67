//! Builds `vortex_array` dtypes, scalars and filter expressions from the library's plain
//! descriptions of them (`crate::vx_model`), one Vortex constructor per node.
//!
//! The Vortex values are opaque here: what is proved about them is proved about the descriptions
//! they are built from.
use vstd::prelude::*;
use std::sync::Arc;
use vortex_array::dtype::{DType, DecimalDType, Nullability as VxNullability, PType as VxPType};
use vortex_array::expr::Expression;
use vortex_array::extension::datetime::{Date, Time, TimeUnit as VxTimeUnit, Timestamp};
use vortex_array::scalar::{DecimalValue, PValue as VxPValue, Scalar as VortexScalar};
use crate::pl_dtype::opt_str_view;
use crate::vx_model::{
    decimal_scalar_valid, time_scalar_valid, vop_bool_logic, vop_int_arith, vop_int_relation, timestamp_scalar_valid, vexpr_constructible,
    vscalar_constructible, Nullability, PType, PValue, VBinaryOp, VDType, VDTypeView, VExpr,
    VExprView, VScalar, VScalarView, VTimeUnit,
};

verus! {

/// `vortex_array::expr::Expression`, a Vortex filter expression.
#[verifier::external_type_specification]
#[verifier::external_body]
pub struct ExVortexExpression(Expression);

/// `vortex_array::scalar::Scalar`, a Vortex scalar with its dtype.
#[verifier::external_type_specification]
#[verifier::external_body]
pub struct ExVortexScalar(VortexScalar);

/// `vortex_array::dtype::DType`, a Vortex dtype.
#[verifier::external_type_specification]
#[verifier::external_body]
pub struct ExVortexDType(DType);

/// `vortex_array::dtype::Nullability`.
#[verifier::external_type_specification]
#[verifier::external_body]
pub struct ExVortexNullability(VxNullability);

/// `vortex_array::scalar::PValue`, a Vortex primitive value.
#[verifier::external_type_specification]
#[verifier::external_body]
pub struct ExVortexPValue(VxPValue);

/// The Vortex value that `vx_nullability` builds for a nullability.
pub uninterp spec fn vortex_nullability(n: Nullability) -> VxNullability;

/// The Vortex primitive value that `vx_pvalue` builds.
pub uninterp spec fn vortex_pvalue(p: PValue) -> VxPValue;

/// What `Scalar::bool` returns.
pub uninterp spec fn vortex_bool_scalar(b: bool, n: VxNullability) -> VortexScalar;

/// What `Scalar::primitive_value` returns for a value of its own primitive type.
pub uninterp spec fn vortex_primitive_scalar(v: VxPValue, n: VxNullability) -> VortexScalar;

/// What `Scalar::utf8` returns for a string's characters.
pub uninterp spec fn vortex_utf8_scalar(s: Seq<char>, n: VxNullability) -> VortexScalar;

/// What `Scalar::binary` returns for the bytes.
pub uninterp spec fn vortex_binary_scalar(b: Seq<u8>, n: VxNullability) -> VortexScalar;

/// The `vortex.date` extension scalar (days) that `vx_date_scalar` builds.
pub uninterp spec fn vortex_date_scalar(days: i32, n: VxNullability) -> VortexScalar;

/// The `vortex.time` extension scalar (nanoseconds) that `vx_time_ns_scalar` builds.
pub uninterp spec fn vortex_time_ns_scalar(ns: i64, n: VxNullability) -> VortexScalar;

/// The `vortex.timestamp` extension scalar of a value, unit, time zone and nullability.
pub uninterp spec fn vortex_timestamp_scalar(v: i64, unit: VTimeUnit, tz: Option<Seq<char>>, n: VxNullability) -> VortexScalar;

/// What `Scalar::decimal` returns for an `i128` value of the given precision and scale.
pub uninterp spec fn vortex_decimal_scalar(v: i128, precision: u8, scale: i8, n: VxNullability) -> VortexScalar;

/// `DType::Bool` of a nullability.
pub uninterp spec fn vortex_bool_dtype(n: VxNullability) -> DType;

/// `DType::Primitive` of the primitive type with the same name.
pub uninterp spec fn vortex_primitive_dtype(p: PType, n: VxNullability) -> DType;

/// `DType::Utf8` of a nullability.
pub uninterp spec fn vortex_utf8_dtype(n: VxNullability) -> DType;

/// What `vortex_array::expr::col` returns for a column name.
pub uninterp spec fn vortex_col(name: Seq<char>) -> Expression;

/// What `vortex_array::expr::get_item` returns for a field name and a child.
pub uninterp spec fn vortex_get_item(name: Seq<char>, child: Expression) -> Expression;

/// What `vortex_array::expr::lit` returns.
pub uninterp spec fn vortex_lit(s: VortexScalar) -> Expression;

/// What `vortex_array::expr::eq` returns.
pub uninterp spec fn vortex_eq(l: Expression, r: Expression) -> Expression;

/// What `vortex_array::expr::not_eq` returns.
pub uninterp spec fn vortex_not_eq(l: Expression, r: Expression) -> Expression;

/// What `vortex_array::expr::lt` returns.
pub uninterp spec fn vortex_lt(l: Expression, r: Expression) -> Expression;

/// What `vortex_array::expr::lt_eq` returns.
pub uninterp spec fn vortex_lt_eq(l: Expression, r: Expression) -> Expression;

/// What `vortex_array::expr::gt` returns.
pub uninterp spec fn vortex_gt(l: Expression, r: Expression) -> Expression;

/// What `vortex_array::expr::gt_eq` returns.
pub uninterp spec fn vortex_gt_eq(l: Expression, r: Expression) -> Expression;

/// What `vortex_array::expr::and` returns.
pub uninterp spec fn vortex_and(l: Expression, r: Expression) -> Expression;

/// What `vortex_array::expr::or` returns.
pub uninterp spec fn vortex_or(l: Expression, r: Expression) -> Expression;

/// What `vortex_array::expr::checked_add` returns.
pub uninterp spec fn vortex_checked_add(l: Expression, r: Expression) -> Expression;

/// What `vortex_array::expr::not` returns.
pub uninterp spec fn vortex_not(c: Expression) -> Expression;

/// What `vortex_array::expr::is_null` returns.
pub uninterp spec fn vortex_is_null(c: Expression) -> Expression;

/// What `vortex_array::expr::is_not_null` returns.
pub uninterp spec fn vortex_is_not_null(c: Expression) -> Expression;

/// What `vortex_array::expr::cast` returns for a child and a target dtype.
pub uninterp spec fn vortex_cast(c: Expression, d: DType) -> Expression;

/// Trusted: the Vortex nullability with the same name (a one-for-one conversion).
#[verifier::external_body]
fn vx_nullability(n: Nullability) -> (r: VxNullability)
    ensures
        r == vortex_nullability(n),
{
    match n {
        Nullability::NonNullable => VxNullability::NonNullable,
        Nullability::Nullable => VxNullability::Nullable,
    }
}

/// Trusted: the Vortex primitive value with the same type and payload; float payloads are read
/// back from their bit patterns with `PValue::reinterpret_cast`.
#[verifier::external_body]
fn vx_pvalue(p: PValue) -> (r: VxPValue)
    ensures
        r == vortex_pvalue(p),
{
    match p {
        PValue::U8(x) => VxPValue::U8(x),
        PValue::U16(x) => VxPValue::U16(x),
        PValue::U32(x) => VxPValue::U32(x),
        PValue::U64(x) => VxPValue::U64(x),
        PValue::I8(x) => VxPValue::I8(x),
        PValue::I16(x) => VxPValue::I16(x),
        PValue::I32(x) => VxPValue::I32(x),
        PValue::I64(x) => VxPValue::I64(x),
        PValue::F16(b) => VxPValue::U16(b).reinterpret_cast(VxPType::F16),
        PValue::F32(b) => VxPValue::U32(b).reinterpret_cast(VxPType::F32),
        PValue::F64(b) => VxPValue::U64(b).reinterpret_cast(VxPType::F64),
    }
}

/// Trusted: `Scalar::bool`, which accepts every value.
#[verifier::external_body]
fn vx_bool_scalar(b: bool, n: VxNullability) -> (r: VortexScalar)
    ensures
        r == vortex_bool_scalar(b, n),
{
    VortexScalar::bool(b, n)
}

/// Trusted: `Scalar::primitive_value` with the value's own primitive type, which
/// `Scalar::validate` accepts.
#[verifier::external_body]
fn vx_primitive_scalar(v: VxPValue, n: VxNullability) -> (r: VortexScalar)
    ensures
        r == vortex_primitive_scalar(v, n),
{
    VortexScalar::primitive_value(v, v.ptype(), n)
}

/// Trusted: `Scalar::utf8` of the string's characters.
#[verifier::external_body]
fn vx_utf8_scalar(s: &String, n: VxNullability) -> (r: VortexScalar)
    ensures
        r == vortex_utf8_scalar(s@, n),
{
    VortexScalar::utf8(s.as_str(), n)
}

/// Trusted: `Scalar::binary` of the bytes.
#[verifier::external_body]
fn vx_binary_scalar(b: &Vec<u8>, n: VxNullability) -> (r: VortexScalar)
    ensures
        r == vortex_binary_scalar(b@, n),
{
    VortexScalar::binary(b.clone(), n)
}

/// Trusted: `Scalar::extension_ref` of a `Date` (unit days) over an `i32` primitive storage
/// scalar; the storage dtype is the one `Date::new(Days, n)` declares, and `Date` accepts every
/// `i32`.
#[verifier::external_body]
fn vx_date_scalar(days: i32, n: VxNullability) -> (r: VortexScalar)
    ensures
        r == vortex_date_scalar(days, n),
{
    VortexScalar::extension_ref(Date::new(VxTimeUnit::Days, n).erased(), VortexScalar::primitive(days, n))
}

/// Trusted: `Scalar::extension_ref` of a `Time` in nanoseconds over an `i64` storage scalar;
/// `Time` accepts a value within one day.
#[verifier::external_body]
fn vx_time_ns_scalar(ns: i64, n: VxNullability) -> (r: VortexScalar)
    requires
        time_scalar_valid(ns),
    ensures
        r == vortex_time_ns_scalar(ns, n),
{
    VortexScalar::extension_ref(Time::new(VxTimeUnit::Nanoseconds, n).erased(), VortexScalar::primitive(ns, n))
}

/// Trusted: `Scalar::try_new` of the `Timestamp` extension dtype (unit, time zone, from
/// `Timestamp::new_with_tz`) over the `i64` storage value, with its error turned into `None`.
/// Validation fails where `jiff` cannot resolve the time-zone name, which depends on the time-zone
/// database of the machine, so nothing is stated of when a zoned timestamp succeeds. Without a
/// time zone, an instant within `jiff::Timestamp`'s range in a unit other than days is
/// accepted. What `Some` holds is the scalar `Scalar::extension_ref` would build from the same
/// parts.
#[verifier::external_body]
fn vx_timestamp_scalar(v: i64, unit: VTimeUnit, tz: &Option<String>, n: VxNullability) -> (r: Option<VortexScalar>)
    requires
        timestamp_scalar_valid(v, unit),
    ensures
        r matches Some(x) ==> x == vortex_timestamp_scalar(v, unit, opt_str_view(*tz), n),
        tz is None ==> r is Some,
{
    let u = match unit {
        VTimeUnit::Nanoseconds => VxTimeUnit::Nanoseconds,
        VTimeUnit::Microseconds => VxTimeUnit::Microseconds,
        VTimeUnit::Milliseconds => VxTimeUnit::Milliseconds,
        VTimeUnit::Seconds => VxTimeUnit::Seconds,
        VTimeUnit::Days => VxTimeUnit::Days,
    };
    let tz_arc: Option<Arc<str>> = match tz {
        Some(s) => Some(Arc::from(s.as_str())),
        None => None,
    };
    let ext = Timestamp::new_with_tz(u, tz_arc, n).erased();
    VortexScalar::try_new(DType::Extension(ext), VortexScalar::primitive(v, n).into_value()).ok()
}

/// Trusted: `Scalar::decimal` of an `i128` value with `DecimalDType::new(precision, scale)`;
/// both accept exactly the values that `decimal_scalar_valid` describes.
#[verifier::external_body]
fn vx_decimal_scalar(v: i128, precision: u8, scale: i8, n: VxNullability) -> (r: VortexScalar)
    requires
        decimal_scalar_valid(v, precision, scale),
    ensures
        r == vortex_decimal_scalar(v, precision, scale, n),
{
    VortexScalar::decimal(DecimalValue::I128(v), DecimalDType::new(precision, scale), n)
}

/// Trusted: `DType::Bool`.
#[verifier::external_body]
fn vx_bool_dtype(n: VxNullability) -> (r: DType)
    ensures
        r == vortex_bool_dtype(n),
{
    DType::Bool(n)
}

/// Trusted: `DType::Primitive` of the primitive type with the same name.
#[verifier::external_body]
fn vx_primitive_dtype(p: PType, n: VxNullability) -> (r: DType)
    ensures
        r == vortex_primitive_dtype(p, n),
{
    let t = match p {
        PType::U8 => VxPType::U8,
        PType::U16 => VxPType::U16,
        PType::U32 => VxPType::U32,
        PType::U64 => VxPType::U64,
        PType::I8 => VxPType::I8,
        PType::I16 => VxPType::I16,
        PType::I32 => VxPType::I32,
        PType::I64 => VxPType::I64,
        PType::F16 => VxPType::F16,
        PType::F32 => VxPType::F32,
        PType::F64 => VxPType::F64,
    };
    DType::Primitive(t, n)
}

/// Trusted: `DType::Utf8`.
#[verifier::external_body]
fn vx_utf8_dtype(n: VxNullability) -> (r: DType)
    ensures
        r == vortex_utf8_dtype(n),
{
    DType::Utf8(n)
}

/// Trusted: `vortex_array::expr::col`, which builds `get_item(name, root())`: the named column
/// of the scan's input.
#[verifier::external_body]
fn vx_col(name: &String) -> (r: Expression)
    ensures
        r == vortex_col(name@),
{
    vortex_array::expr::col(name.as_str())
}

/// Trusted: `vortex_array::expr::get_item` of the named field.
#[verifier::external_body]
fn vx_get_item(name: &String, child: Expression) -> (r: Expression)
    ensures
        r == vortex_get_item(name@, child),
{
    vortex_array::expr::get_item(name.as_str(), child)
}

/// Trusted: `vortex_array::expr::lit`.
#[verifier::external_body]
fn vx_lit(s: VortexScalar) -> (r: Expression)
    ensures
        r == vortex_lit(s),
{
    vortex_array::expr::lit(s)
}

/// Trusted: `vortex_array::expr::eq`.
#[verifier::external_body]
fn vx_eq(l: Expression, r: Expression) -> (e: Expression)
    ensures
        e == vortex_eq(l, r),
{
    vortex_array::expr::eq(l, r)
}

/// Trusted: `vortex_array::expr::not_eq`.
#[verifier::external_body]
fn vx_not_eq(l: Expression, r: Expression) -> (e: Expression)
    ensures
        e == vortex_not_eq(l, r),
{
    vortex_array::expr::not_eq(l, r)
}

/// Trusted: `vortex_array::expr::lt`.
#[verifier::external_body]
fn vx_lt(l: Expression, r: Expression) -> (e: Expression)
    ensures
        e == vortex_lt(l, r),
{
    vortex_array::expr::lt(l, r)
}

/// Trusted: `vortex_array::expr::lt_eq`.
#[verifier::external_body]
fn vx_lt_eq(l: Expression, r: Expression) -> (e: Expression)
    ensures
        e == vortex_lt_eq(l, r),
{
    vortex_array::expr::lt_eq(l, r)
}

/// Trusted: `vortex_array::expr::gt`.
#[verifier::external_body]
fn vx_gt(l: Expression, r: Expression) -> (e: Expression)
    ensures
        e == vortex_gt(l, r),
{
    vortex_array::expr::gt(l, r)
}

/// Trusted: `vortex_array::expr::gt_eq`.
#[verifier::external_body]
fn vx_gt_eq(l: Expression, r: Expression) -> (e: Expression)
    ensures
        e == vortex_gt_eq(l, r),
{
    vortex_array::expr::gt_eq(l, r)
}

/// Trusted: `vortex_array::expr::and`.
#[verifier::external_body]
fn vx_and(l: Expression, r: Expression) -> (e: Expression)
    ensures
        e == vortex_and(l, r),
{
    vortex_array::expr::and(l, r)
}

/// Trusted: `vortex_array::expr::or`.
#[verifier::external_body]
fn vx_or(l: Expression, r: Expression) -> (e: Expression)
    ensures
        e == vortex_or(l, r),
{
    vortex_array::expr::or(l, r)
}

/// Trusted: `vortex_array::expr::checked_add`.
#[verifier::external_body]
fn vx_checked_add(l: Expression, r: Expression) -> (e: Expression)
    ensures
        e == vortex_checked_add(l, r),
{
    vortex_array::expr::checked_add(l, r)
}

/// Trusted: `vortex_array::expr::not`.
#[verifier::external_body]
fn vx_not(c: Expression) -> (e: Expression)
    ensures
        e == vortex_not(c),
{
    vortex_array::expr::not(c)
}

/// Trusted: `vortex_array::expr::is_null`.
#[verifier::external_body]
fn vx_is_null(c: Expression) -> (e: Expression)
    ensures
        e == vortex_is_null(c),
{
    vortex_array::expr::is_null(c)
}

/// Trusted: `vortex_array::expr::is_not_null`.
#[verifier::external_body]
fn vx_is_not_null(c: Expression) -> (e: Expression)
    ensures
        e == vortex_is_not_null(c),
{
    vortex_array::expr::is_not_null(c)
}

/// Trusted: `vortex_array::expr::cast` to the given dtype.
#[verifier::external_body]
fn vx_cast(c: Expression, d: DType) -> (e: Expression)
    ensures
        e == vortex_cast(c, d),
{
    vortex_array::expr::cast(c, d)
}

/// The Vortex scalar a description stands for, built by the matching constructor.
pub open spec fn vortex_scalar_of(s: VScalarView) -> VortexScalar {
    match s {
        VScalarView::Bool(b, n) => vortex_bool_scalar(b, vortex_nullability(n)),
        VScalarView::Primitive(p, n) => vortex_primitive_scalar(vortex_pvalue(p), vortex_nullability(n)),
        VScalarView::Utf8(t, n) => vortex_utf8_scalar(t, vortex_nullability(n)),
        VScalarView::Binary(b, n) => vortex_binary_scalar(b, vortex_nullability(n)),
        VScalarView::Date(d, n) => vortex_date_scalar(d, vortex_nullability(n)),
        VScalarView::Time(ns, n) => vortex_time_ns_scalar(ns, vortex_nullability(n)),
        VScalarView::Timestamp(v, u, tz, n) => vortex_timestamp_scalar(v, u, tz, vortex_nullability(n)),
        VScalarView::Decimal(v, p, sc, n) => vortex_decimal_scalar(v, p, sc, vortex_nullability(n)),
    }
}

/// The Vortex dtype of a cast target (boolean, primitive or UTF-8; other dtypes are never cast
/// targets and stand for the nullable UTF-8 dtype here).
pub open spec fn vortex_dtype_of(d: VDTypeView) -> DType {
    match d {
        VDTypeView::Bool(n) => vortex_bool_dtype(vortex_nullability(n)),
        VDTypeView::Primitive(p, n) => vortex_primitive_dtype(p, vortex_nullability(n)),
        VDTypeView::Utf8(n) => vortex_utf8_dtype(vortex_nullability(n)),
        _ => vortex_utf8_dtype(vortex_nullability(Nullability::Nullable)),
    }
}

/// The Vortex expression a description stands for, built node by node.
pub open spec fn vortex_expr_of(e: VExprView) -> Expression
    decreases e,
{
    match e {
        VExprView::Column(name) => vortex_col(name),
        VExprView::GetItem(name, c) => vortex_get_item(name, vortex_expr_of(*c)),
        VExprView::Literal(s) => vortex_lit(vortex_scalar_of(s)),
        VExprView::Binary(l, op, r) => {
            let a = vortex_expr_of(*l);
            let b = vortex_expr_of(*r);
            match op {
                VBinaryOp::Eq => vortex_eq(a, b),
                VBinaryOp::NotEq => vortex_not_eq(a, b),
                VBinaryOp::Lt => vortex_lt(a, b),
                VBinaryOp::LtEq => vortex_lt_eq(a, b),
                VBinaryOp::Gt => vortex_gt(a, b),
                VBinaryOp::GtEq => vortex_gt_eq(a, b),
                VBinaryOp::And => vortex_and(a, b),
                VBinaryOp::Or => vortex_or(a, b),
                VBinaryOp::CheckedAdd => vortex_checked_add(a, b),
            }
        },
        VExprView::Not(c) => vortex_not(vortex_expr_of(*c)),
        VExprView::IsNull(c) => vortex_is_null(vortex_expr_of(*c)),
        VExprView::IsNotNull(c) => vortex_is_not_null(vortex_expr_of(*c)),
        VExprView::Cast(c, d) => vortex_cast(vortex_expr_of(*c), vortex_dtype_of(d)),
    }
}

/// A timestamp scalar with a time zone, whose construction depends on the time-zone database.
pub open spec fn vscalar_zoned(s: VScalarView) -> bool {
    s matches VScalarView::Timestamp(_, _, Some(_), _)
}

/// Some literal of the expression is a timestamp with a time zone.
pub open spec fn vexpr_has_zoned_literal(e: VExprView) -> bool
    decreases e,
{
    match e {
        VExprView::Column(_) => false,
        VExprView::GetItem(_, c) => vexpr_has_zoned_literal(*c),
        VExprView::Literal(s) => vscalar_zoned(s),
        VExprView::Binary(l, _, r) => vexpr_has_zoned_literal(*l) || vexpr_has_zoned_literal(*r),
        VExprView::Not(c) => vexpr_has_zoned_literal(*c),
        VExprView::IsNull(c) => vexpr_has_zoned_literal(*c),
        VExprView::IsNotNull(c) => vexpr_has_zoned_literal(*c),
        VExprView::Cast(c, _) => vexpr_has_zoned_literal(*c),
    }
}

/// The Vortex expression of a binary description is built by the builder that means what its
/// operator means: conjunction by `and`, disjunction by `or`, each integer relation by the
/// comparison stating it, and addition by `checked_add`, over the operands in order.
pub proof fn lemma_built_binary_follows_meaning(l: VExprView, op: VBinaryOp, r: VExprView)
    ensures
        ({
            let (x, y) = (vortex_expr_of(l), vortex_expr_of(r));
            let built = vortex_expr_of(VExprView::Binary(Box::new(l), op, Box::new(r)));
            &&& (forall|a: bool, b: bool| #[trigger] vop_bool_logic(op, a, b) == (a && b)) ==> built
                == vortex_and(x, y)
            &&& (forall|a: bool, b: bool| #[trigger] vop_bool_logic(op, a, b) == (a || b)) ==> built
                == vortex_or(x, y)
            &&& (forall|a: int, b: int| #[trigger] vop_int_relation(op, a, b) == (a == b)) ==> built
                == vortex_eq(x, y)
            &&& (forall|a: int, b: int| #[trigger] vop_int_relation(op, a, b) == (a != b)) ==> built
                == vortex_not_eq(x, y)
            &&& (forall|a: int, b: int| #[trigger] vop_int_relation(op, a, b) == (a < b)) ==> built
                == vortex_lt(x, y)
            &&& (forall|a: int, b: int| #[trigger] vop_int_relation(op, a, b) == (a <= b)) ==> built
                == vortex_lt_eq(x, y)
            &&& (forall|a: int, b: int| #[trigger] vop_int_relation(op, a, b) == (a > b)) ==> built
                == vortex_gt(x, y)
            &&& (forall|a: int, b: int| #[trigger] vop_int_relation(op, a, b) == (a >= b)) ==> built
                == vortex_gt_eq(x, y)
            &&& (forall|a: int, b: int| #[trigger] vop_int_arith(op, a, b) == Some(a + b)) ==> built
                == vortex_checked_add(x, y)
        }),
{
    if forall|a: bool, b: bool| #[trigger] vop_bool_logic(op, a, b) == (a && b) {
        assert(vop_bool_logic(op, true, true) && !vop_bool_logic(op, true, false));
    }
    if forall|a: bool, b: bool| #[trigger] vop_bool_logic(op, a, b) == (a || b) {
        assert(vop_bool_logic(op, true, false));
    }
    if forall|a: int, b: int| #[trigger] vop_int_relation(op, a, b) == (a == b) {
        assert(vop_int_relation(op, 0, 0) && !vop_int_relation(op, 0, 1) && !vop_int_relation(op, 1, 0));
    }
    if forall|a: int, b: int| #[trigger] vop_int_relation(op, a, b) == (a != b) {
        assert(!vop_int_relation(op, 0, 0) && vop_int_relation(op, 0, 1) && vop_int_relation(op, 1, 0));
    }
    if forall|a: int, b: int| #[trigger] vop_int_relation(op, a, b) == (a < b) {
        assert(!vop_int_relation(op, 0, 0) && vop_int_relation(op, 0, 1) && !vop_int_relation(op, 1, 0));
    }
    if forall|a: int, b: int| #[trigger] vop_int_relation(op, a, b) == (a <= b) {
        assert(vop_int_relation(op, 0, 0) && vop_int_relation(op, 0, 1) && !vop_int_relation(op, 1, 0));
    }
    if forall|a: int, b: int| #[trigger] vop_int_relation(op, a, b) == (a > b) {
        assert(!vop_int_relation(op, 0, 0) && !vop_int_relation(op, 0, 1) && vop_int_relation(op, 1, 0));
    }
    if forall|a: int, b: int| #[trigger] vop_int_relation(op, a, b) == (a >= b) {
        assert(vop_int_relation(op, 0, 0) && !vop_int_relation(op, 0, 1) && vop_int_relation(op, 1, 0));
    }
    if forall|a: int, b: int| #[trigger] vop_int_arith(op, a, b) == Some(a + b) {
        assert(vop_int_arith(op, 0, 0) is Some);
    }
}

/// Build the Vortex scalar a description stands for; `None` when Vortex rejects the time zone of
/// a timestamp (always `Some` for other scalars).
pub fn vscalar_to_vortex(s: &VScalar) -> (r: Option<VortexScalar>)
    requires
        vscalar_constructible(s@),
    ensures
        r matches Some(x) ==> x == vortex_scalar_of(s@),
        !vscalar_zoned(s@) ==> r is Some,
{
    match s {
        VScalar::Bool(b, n) => Some(vx_bool_scalar(*b, vx_nullability(*n))),
        VScalar::Primitive(p, n) => Some(vx_primitive_scalar(vx_pvalue(*p), vx_nullability(*n))),
        VScalar::Utf8(t, n) => Some(vx_utf8_scalar(t, vx_nullability(*n))),
        VScalar::Binary(b, n) => Some(vx_binary_scalar(b, vx_nullability(*n))),
        VScalar::Date(d, n) => Some(vx_date_scalar(*d, vx_nullability(*n))),
        VScalar::Time(ns, n) => Some(vx_time_ns_scalar(*ns, vx_nullability(*n))),
        VScalar::Timestamp(v, u, tz, n) => vx_timestamp_scalar(*v, *u, tz, vx_nullability(*n)),
        VScalar::Decimal(v, p, sc, n) => Some(vx_decimal_scalar(*v, *p, *sc, vx_nullability(*n))),
    }
}

/// Build the Vortex dtype of a cast target (boolean, primitive or UTF-8).
pub fn cast_target_to_vortex(d: &VDType) -> (r: DType)
    requires
        d@ is Bool || d@ is Primitive || d@ is Utf8,
    ensures
        r == vortex_dtype_of(d@),
{
    match d {
        VDType::Bool(n) => vx_bool_dtype(vx_nullability(*n)),
        VDType::Primitive(p, n) => vx_primitive_dtype(*p, vx_nullability(*n)),
        VDType::Utf8(n) => vx_utf8_dtype(vx_nullability(*n)),
        _ => {
            proof {
                assert(false);
            }
            vx_utf8_dtype(vx_nullability(Nullability::Nullable))
        },
    }
}

/// Build the Vortex filter expression a description stands for, node by node; `None` when
/// Vortex rejects the time zone of a timestamp literal.
pub fn vexpr_to_vortex(e: &VExpr) -> (r: Option<Expression>)
    requires
        vexpr_constructible(e@),
    ensures
        r matches Some(x) ==> x == vortex_expr_of(e@),
        !vexpr_has_zoned_literal(e@) ==> r is Some,
    decreases e,
{
    match e {
        VExpr::Column(name) => Some(vx_col(name)),
        VExpr::GetItem(name, c) => match vexpr_to_vortex(c) {
            Some(x) => Some(vx_get_item(name, x)),
            None => None,
        },
        VExpr::Literal(s) => match vscalar_to_vortex(s) {
            Some(x) => Some(vx_lit(x)),
            None => None,
        },
        VExpr::Binary(l, op, r) => {
            let lv = match vexpr_to_vortex(l) {
                Some(x) => x,
                None => return None,
            };
            let rv = match vexpr_to_vortex(r) {
                Some(x) => x,
                None => return None,
            };
            Some(
                match op {
                    VBinaryOp::Eq => vx_eq(lv, rv),
                    VBinaryOp::NotEq => vx_not_eq(lv, rv),
                    VBinaryOp::Lt => vx_lt(lv, rv),
                    VBinaryOp::LtEq => vx_lt_eq(lv, rv),
                    VBinaryOp::Gt => vx_gt(lv, rv),
                    VBinaryOp::GtEq => vx_gt_eq(lv, rv),
                    VBinaryOp::And => vx_and(lv, rv),
                    VBinaryOp::Or => vx_or(lv, rv),
                    VBinaryOp::CheckedAdd => vx_checked_add(lv, rv),
                },
            )
        },
        VExpr::Not(c) => match vexpr_to_vortex(c) {
            Some(x) => Some(vx_not(x)),
            None => None,
        },
        VExpr::IsNull(c) => match vexpr_to_vortex(c) {
            Some(x) => Some(vx_is_null(x)),
            None => None,
        },
        VExpr::IsNotNull(c) => match vexpr_to_vortex(c) {
            Some(x) => Some(vx_is_not_null(x)),
            None => None,
        },
        VExpr::Cast(c, d) => match vexpr_to_vortex(c) {
            Some(x) => Some(vx_cast(x, cast_target_to_vortex(d))),
            None => None,
        },
    }
}

} // verus!
