//! Vortex-side values as plain data: dtypes, primitive values, statistics precision, scalars and
//! filter expressions. The library computes these; `crate::vx_emit` turns the scalar, dtype and
//! expression values into `vortex_array` objects one-for-one.
use vstd::prelude::*;

verus! {

/// Vortex nullability of a dtype.
#[derive(Clone, Copy, Debug, PartialEq, Eq, Structural)]
pub enum Nullability {
    NonNullable,
    Nullable,
}

/// Vortex primitive type.
#[derive(Clone, Copy, Debug, PartialEq, Eq, Structural)]
pub enum PType {
    U8,
    U16,
    U32,
    U64,
    I8,
    I16,
    I32,
    I64,
    F16,
    F32,
    F64,
}

/// Vortex temporal unit.
#[derive(Clone, Copy, Debug, PartialEq, Eq, Structural)]
pub enum VTimeUnit {
    Nanoseconds,
    Microseconds,
    Milliseconds,
    Seconds,
    Days,
}

/// A Vortex primitive value; floating-point payloads are IEEE-754 bit patterns.
#[derive(Clone, Copy, Debug, PartialEq, Eq, Structural)]
pub enum PValue {
    U8(u8),
    U16(u16),
    U32(u32),
    U64(u64),
    I8(i8),
    I16(i16),
    I32(i32),
    I64(i64),
    F16(u16),
    F32(u32),
    F64(u64),
}

/// The integer value of an integer `PValue` (`None` for floats).
pub open spec fn pvalue_int(p: PValue) -> Option<int> {
    match p {
        PValue::U8(v) => Some(v as int),
        PValue::U16(v) => Some(v as int),
        PValue::U32(v) => Some(v as int),
        PValue::U64(v) => Some(v as int),
        PValue::I8(v) => Some(v as int),
        PValue::I16(v) => Some(v as int),
        PValue::I32(v) => Some(v as int),
        PValue::I64(v) => Some(v as int),
        _ => None,
    }
}

/// `PValue::as_i64`: integers that fit in `i64`, else `None`.
pub open spec fn pvalue_as_i64_spec(p: PValue) -> Option<i64> {
    match pvalue_int(p) {
        Some(v) => if i64::MIN <= v <= i64::MAX {
            Some(v as i64)
        } else {
            None
        },
        None => None,
    }
}

/// `PValue::as_u64`: integers that fit in `u64`, else `None`.
pub open spec fn pvalue_as_u64_spec(p: PValue) -> Option<u64> {
    match pvalue_int(p) {
        Some(v) => if 0 <= v <= u64::MAX {
            Some(v as u64)
        } else {
            None
        },
        None => None,
    }
}

impl PValue {
    /// Read an integer value as `i64` (Vortex's `PValue::as_i64`): `None` for floats and for
    /// integers outside the `i64` range.
    pub fn as_i64(self) -> (r: Option<i64>)
        ensures
            r == pvalue_as_i64_spec(self),
    {
        match self {
            PValue::U8(v) => Some(v as i64),
            PValue::U16(v) => Some(v as i64),
            PValue::U32(v) => Some(v as i64),
            PValue::U64(v) => if v <= 0x7fff_ffff_ffff_ffffu64 {
                Some(v as i64)
            } else {
                None
            },
            PValue::I8(v) => Some(v as i64),
            PValue::I16(v) => Some(v as i64),
            PValue::I32(v) => Some(v as i64),
            PValue::I64(v) => Some(v),
            _ => None,
        }
    }

    /// Read an integer value as `u64` (Vortex's `PValue::as_u64`): `None` for floats and for
    /// negative integers.
    pub fn as_u64(self) -> (r: Option<u64>)
        ensures
            r == pvalue_as_u64_spec(self),
    {
        match self {
            PValue::U8(v) => Some(v as u64),
            PValue::U16(v) => Some(v as u64),
            PValue::U32(v) => Some(v as u64),
            PValue::U64(v) => Some(v),
            PValue::I8(v) => if v >= 0 {
                Some(v as u64)
            } else {
                None
            },
            PValue::I16(v) => if v >= 0 {
                Some(v as u64)
            } else {
                None
            },
            PValue::I32(v) => if v >= 0 {
                Some(v as u64)
            } else {
                None
            },
            PValue::I64(v) => if v >= 0 {
                Some(v as u64)
            } else {
                None
            },
            _ => None,
        }
    }
}

/// Whether a statistic is exact or only a bound.
#[derive(Debug, PartialEq)]
pub enum Precision<T> {
    Exact(T),
    Inexact(T),
}

/// A Vortex scalar value without its dtype (the payload of a statistic).
#[derive(Debug, PartialEq)]
pub enum ScalarValue {
    Bool(bool),
    Primitive(PValue),
    Utf8(String),
    Binary(Vec<u8>),
    /// Decimal, list, struct or variant payloads, which the statistics bridge does not read.
    Other,
}

/// A Vortex scalar, described by the constructor that builds it.
#[derive(Debug)]
pub enum VScalar {
    /// `Scalar::bool`.
    Bool(bool, Nullability),
    /// `Scalar::primitive` of the value's own primitive type.
    Primitive(PValue, Nullability),
    /// `Scalar::utf8`.
    Utf8(String, Nullability),
    /// `Scalar::binary`.
    Binary(Vec<u8>, Nullability),
    /// `vortex.date` extension scalar in days over `i32` storage.
    Date(i32, Nullability),
    /// `vortex.time` extension scalar in nanoseconds over `i64` storage.
    Time(i64, Nullability),
    /// `vortex.timestamp` extension scalar over `i64` storage, with unit and time zone.
    Timestamp(i64, VTimeUnit, Option<String>, Nullability),
    /// `Scalar::decimal` of an `i128` value with precision and scale.
    Decimal(i128, u8, i8, Nullability),
}

/// Mathematical value of a [`VScalar`].
pub enum VScalarView {
    Bool(bool, Nullability),
    Primitive(PValue, Nullability),
    Utf8(Seq<char>, Nullability),
    Binary(Seq<u8>, Nullability),
    Date(i32, Nullability),
    Time(i64, Nullability),
    Timestamp(i64, VTimeUnit, Option<Seq<char>>, Nullability),
    Decimal(i128, u8, i8, Nullability),
}

impl View for VScalar {
    type V = VScalarView;

    open spec fn view(&self) -> VScalarView {
        match *self {
            VScalar::Bool(b, n) => VScalarView::Bool(b, n),
            VScalar::Primitive(p, n) => VScalarView::Primitive(p, n),
            VScalar::Utf8(s, n) => VScalarView::Utf8(s@, n),
            VScalar::Binary(b, n) => VScalarView::Binary(b@, n),
            VScalar::Date(d, n) => VScalarView::Date(d, n),
            VScalar::Time(t, n) => VScalarView::Time(t, n),
            VScalar::Timestamp(v, u, tz, n) => VScalarView::Timestamp(
                v,
                u,
                crate::pl_dtype::opt_str_view(tz),
                n,
            ),
            VScalar::Decimal(v, p, s, n) => VScalarView::Decimal(v, p, s, n),
        }
    }
}

/// `10^e`.
pub open spec fn pow10(e: nat) -> int
    decreases e,
{
    if e == 0 {
        1
    } else {
        10 * pow10((e - 1) as nat)
    }
}

/// A decimal dtype that `DecimalDType::new` accepts, holding a value with at most `precision`
/// digits (what `Scalar::decimal` accepts).
pub open spec fn decimal_scalar_valid(value: i128, precision: u8, scale: i8) -> bool {
    &&& 1 <= precision <= 76
    &&& scale <= 76
    &&& (scale > 0 ==> scale <= precision)
    &&& -pow10(precision as nat) < value < pow10(precision as nat)
}

/// A timestamp in this unit that Vortex accepts: the span from the Unix epoch is one that
/// `jiff::Span` holds, and the instant lies within `jiff::Timestamp`'s range (seconds
/// -377705023201 through 253402207200.999999999); `Days` is not a timestamp unit.
pub open spec fn timestamp_scalar_valid(value: i64, unit: VTimeUnit) -> bool {
    match unit {
        VTimeUnit::Nanoseconds => value > i64::MIN,
        VTimeUnit::Microseconds => -377_705_023_201_000_000 <= value <= 253_402_207_200_999_999,
        VTimeUnit::Milliseconds => -377_705_023_201_000 <= value <= 253_402_207_200_999,
        VTimeUnit::Seconds => -377_705_023_201 <= value <= 253_402_207_200,
        VTimeUnit::Days => false,
    }
}

/// A time of day in nanoseconds that Vortex accepts: within one day.
pub open spec fn time_scalar_valid(ns: i64) -> bool {
    0 <= ns < 86_400_000_000_000
}

/// The scalar can be built without a Vortex constructor panicking.
pub open spec fn vscalar_constructible(s: VScalarView) -> bool {
    match s {
        VScalarView::Decimal(v, p, sc, _) => decimal_scalar_valid(v, p, sc),
        VScalarView::Timestamp(v, u, _, _) => timestamp_scalar_valid(v, u),
        VScalarView::Time(ns, _) => time_scalar_valid(ns),
        _ => true,
    }
}

proof fn lemma_pow10_monotone(a: nat, b: nat)
    requires
        a <= b,
    ensures
        1 <= pow10(a) <= pow10(b),
    decreases b,
{
    if a < b {
        lemma_pow10_monotone(a, (b - 1) as nat);
    } else if b > 0 {
        lemma_pow10_monotone(0, (b - 1) as nat);
    }
}

/// `|value| < 10^precision`, the digit bound of a decimal scalar.
pub fn decimal_digits_fit(value: i128, precision: u8) -> (r: bool)
    ensures
        r == (-pow10(precision as nat) < value < pow10(precision as nat)),
{
    if precision >= 39 {
        proof {
            assert(pow10(39) == 1_000_000_000_000_000_000_000_000_000_000_000_000_000) by {
                reveal_with_fuel(pow10, 40);
            }
            lemma_pow10_monotone(39, precision as nat);
        }
        return true;
    }
    proof {
        assert(pow10(38) == 100_000_000_000_000_000_000_000_000_000_000_000_000) by {
            reveal_with_fuel(pow10, 39);
        }
    }
    let mut pw: i128 = 1;
    let mut i: u8 = 0;
    while i < precision
        invariant
            i <= precision <= 38,
            pw == pow10(i as nat),
            pow10(38) == 100_000_000_000_000_000_000_000_000_000_000_000_000,
        decreases precision - i,
    {
        proof {
            lemma_pow10_monotone((i + 1) as nat, 38);
        }
        pw = pw * 10;
        i = i + 1;
    }
    -pw < value && value < pw
}

impl VScalar {
    /// Whether the scalar can be built without a Vortex constructor panicking (see
    /// [`vscalar_constructible`]).
    pub fn is_constructible(&self) -> (r: bool)
        ensures
            r == vscalar_constructible(self@),
    {
        match self {
            VScalar::Decimal(v, p, sc, _) => {
                1 <= *p && *p <= 76 && *sc <= 76 && (*sc <= 0 || *sc as i16 <= *p as i16)
                    && decimal_digits_fit(*v, *p)
            },
            VScalar::Timestamp(v, u, _, _) => match u {
                VTimeUnit::Nanoseconds => *v > i64::MIN,
                VTimeUnit::Microseconds => -377_705_023_201_000_000 <= *v && *v <= 253_402_207_200_999_999,
                VTimeUnit::Milliseconds => -377_705_023_201_000 <= *v && *v <= 253_402_207_200_999,
                VTimeUnit::Seconds => -377_705_023_201 <= *v && *v <= 253_402_207_200,
                VTimeUnit::Days => false,
            },
            VScalar::Time(ns, _) => 0 <= *ns && *ns < 86_400_000_000_000,
            _ => true,
        }
    }
}

/// A field of a Vortex struct dtype.
#[derive(Debug)]
pub struct VStructField {
    pub name: String,
    pub dtype: VDType,
}

/// Metadata of Vortex's temporal extension dtypes (`AnyTemporal`).
#[derive(Debug)]
pub enum TemporalMetadata {
    Timestamp(VTimeUnit, Option<String>),
    Date(VTimeUnit),
    Time(VTimeUnit),
}

/// A Vortex extension dtype: one of the temporal extensions, or another extension by id.
#[derive(Debug)]
pub enum VExtDType {
    Temporal(TemporalMetadata, Nullability),
    Other(String, Nullability),
}

/// A Vortex dtype.
#[derive(Debug)]
pub enum VDType {
    Null,
    Bool(Nullability),
    Primitive(PType, Nullability),
    /// Precision, scale.
    Decimal(u8, i8, Nullability),
    Utf8(Nullability),
    Binary(Nullability),
    List(Box<VDType>, Nullability),
    FixedSizeList(Box<VDType>, u32, Nullability),
    Struct(Vec<VStructField>, Nullability),
    Variant(Nullability),
    Extension(VExtDType),
}

/// Mathematical value of a [`TemporalMetadata`].
pub enum TemporalMetadataView {
    Timestamp(VTimeUnit, Option<Seq<char>>),
    Date(VTimeUnit),
    Time(VTimeUnit),
}

/// Mathematical value of a [`VExtDType`].
pub enum VExtDTypeView {
    Temporal(TemporalMetadataView, Nullability),
    Other(Seq<char>, Nullability),
}

/// Mathematical value of a [`VDType`].
pub enum VDTypeView {
    Null,
    Bool(Nullability),
    Primitive(PType, Nullability),
    Decimal(u8, i8, Nullability),
    Utf8(Nullability),
    Binary(Nullability),
    List(Box<VDTypeView>, Nullability),
    FixedSizeList(Box<VDTypeView>, u32, Nullability),
    Struct(Seq<(Seq<char>, VDTypeView)>, Nullability),
    Variant(Nullability),
    Extension(VExtDTypeView),
}

pub open spec fn temporal_view(t: TemporalMetadata) -> TemporalMetadataView {
    match t {
        TemporalMetadata::Timestamp(u, tz) => TemporalMetadataView::Timestamp(
            u,
            crate::pl_dtype::opt_str_view(tz),
        ),
        TemporalMetadata::Date(u) => TemporalMetadataView::Date(u),
        TemporalMetadata::Time(u) => TemporalMetadataView::Time(u),
    }
}

pub open spec fn ext_view(e: VExtDType) -> VExtDTypeView {
    match e {
        VExtDType::Temporal(t, n) => VExtDTypeView::Temporal(temporal_view(t), n),
        VExtDType::Other(id, n) => VExtDTypeView::Other(id@, n),
    }
}

pub open spec fn vdtype_view(d: VDType) -> VDTypeView
    decreases d,
{
    match d {
        VDType::Null => VDTypeView::Null,
        VDType::Bool(n) => VDTypeView::Bool(n),
        VDType::Primitive(p, n) => VDTypeView::Primitive(p, n),
        VDType::Decimal(p, s, n) => VDTypeView::Decimal(p, s, n),
        VDType::Utf8(n) => VDTypeView::Utf8(n),
        VDType::Binary(n) => VDTypeView::Binary(n),
        VDType::List(e, n) => VDTypeView::List(Box::new(vdtype_view(*e)), n),
        VDType::FixedSizeList(e, k, n) => VDTypeView::FixedSizeList(Box::new(vdtype_view(*e)), k, n),
        VDType::Struct(fs, n) => VDTypeView::Struct(
            Seq::new(
                fs@.len(),
                |i: int|
                    (
                        fs@[i].name@,
                        if 0 <= i < fs@.len() {
                            vdtype_view(fs@[i].dtype)
                        } else {
                            VDTypeView::Null
                        },
                    ),
            ),
            n,
        ),
        VDType::Variant(n) => VDTypeView::Variant(n),
        VDType::Extension(e) => VDTypeView::Extension(ext_view(e)),
    }
}

impl View for VDType {
    type V = VDTypeView;

    open spec fn view(&self) -> VDTypeView {
        vdtype_view(*self)
    }
}

/// Nullability of a Vortex dtype (`DType::is_nullable`).
pub open spec fn vdtype_nullable(d: VDTypeView) -> bool {
    match d {
        VDTypeView::Null => true,
        VDTypeView::Bool(n) | VDTypeView::Primitive(_, n) | VDTypeView::Decimal(_, _, n)
        | VDTypeView::Utf8(n) | VDTypeView::Binary(n) | VDTypeView::List(_, n)
        | VDTypeView::FixedSizeList(_, _, n) | VDTypeView::Struct(_, n)
        | VDTypeView::Variant(n) => n == Nullability::Nullable,
        VDTypeView::Extension(VExtDTypeView::Temporal(_, n)) => n == Nullability::Nullable,
        VDTypeView::Extension(VExtDTypeView::Other(_, n)) => n == Nullability::Nullable,
    }
}

impl VDType {
    /// `DType::is_nullable`.
    pub fn is_nullable(&self) -> (r: bool)
        ensures
            r == vdtype_nullable(self@),
    {
        let n = match self {
            VDType::Null => return true,
            VDType::Bool(n) => *n,
            VDType::Primitive(_, n) => *n,
            VDType::Decimal(_, _, n) => *n,
            VDType::Utf8(n) => *n,
            VDType::Binary(n) => *n,
            VDType::List(_, n) => *n,
            VDType::FixedSizeList(_, _, n) => *n,
            VDType::Struct(_, n) => *n,
            VDType::Variant(n) => *n,
            VDType::Extension(VExtDType::Temporal(_, n)) => *n,
            VDType::Extension(VExtDType::Other(_, n)) => *n,
        };
        match n {
            Nullability::Nullable => true,
            Nullability::NonNullable => false,
        }
    }
}

/// Binary operators of Vortex filter expressions.
#[derive(Clone, Copy, Debug, PartialEq, Eq, Structural)]
pub enum VBinaryOp {
    Eq,
    NotEq,
    Lt,
    LtEq,
    Gt,
    GtEq,
    And,
    Or,
    CheckedAdd,
}

/// What a comparison operator states of two integer operands (`false` for the other operators).
pub open spec fn vop_int_relation(op: VBinaryOp, a: int, b: int) -> bool {
    match op {
        VBinaryOp::Eq => a == b,
        VBinaryOp::NotEq => a != b,
        VBinaryOp::Lt => a < b,
        VBinaryOp::LtEq => a <= b,
        VBinaryOp::Gt => a > b,
        VBinaryOp::GtEq => a >= b,
        _ => false,
    }
}

/// What a boolean connective gives for two boolean operands (`false` for the other operators).
pub open spec fn vop_bool_logic(op: VBinaryOp, a: bool, b: bool) -> bool {
    match op {
        VBinaryOp::And => a && b,
        VBinaryOp::Or => a || b,
        _ => false,
    }
}

/// What an arithmetic operator gives for two integer operands that do not overflow (`None` for
/// the other operators).
pub open spec fn vop_int_arith(op: VBinaryOp, a: int, b: int) -> Option<int> {
    match op {
        VBinaryOp::CheckedAdd => Some(a + b),
        _ => None,
    }
}

/// A Vortex filter expression, node by node as the `vortex::expr` builders make it.
#[derive(Debug)]
pub enum VExpr {
    /// `col(name)`: the named column of the scan's input (`get_item(name, root())`).
    Column(String),
    /// `get_item(name, child)`.
    GetItem(String, Box<VExpr>),
    /// `lit(scalar)`.
    Literal(VScalar),
    /// `eq` / `not_eq` / `lt` / `lt_eq` / `gt` / `gt_eq` / `and` / `or` / `checked_add`.
    Binary(Box<VExpr>, VBinaryOp, Box<VExpr>),
    /// `not(child)`.
    Not(Box<VExpr>),
    /// `is_null(child)`.
    IsNull(Box<VExpr>),
    /// `is_not_null(child)`.
    IsNotNull(Box<VExpr>),
    /// `cast(child, dtype)`.
    Cast(Box<VExpr>, VDType),
}

/// Mathematical value of a [`VExpr`].
pub enum VExprView {
    Column(Seq<char>),
    GetItem(Seq<char>, Box<VExprView>),
    Literal(VScalarView),
    Binary(Box<VExprView>, VBinaryOp, Box<VExprView>),
    Not(Box<VExprView>),
    IsNull(Box<VExprView>),
    IsNotNull(Box<VExprView>),
    Cast(Box<VExprView>, VDTypeView),
}

pub open spec fn vexpr_view(e: VExpr) -> VExprView
    decreases e,
{
    match e {
        VExpr::Column(n) => VExprView::Column(n@),
        VExpr::GetItem(n, c) => VExprView::GetItem(n@, Box::new(vexpr_view(*c))),
        VExpr::Literal(s) => VExprView::Literal(s@),
        VExpr::Binary(l, op, r) => VExprView::Binary(
            Box::new(vexpr_view(*l)),
            op,
            Box::new(vexpr_view(*r)),
        ),
        VExpr::Not(c) => VExprView::Not(Box::new(vexpr_view(*c))),
        VExpr::IsNull(c) => VExprView::IsNull(Box::new(vexpr_view(*c))),
        VExpr::IsNotNull(c) => VExprView::IsNotNull(Box::new(vexpr_view(*c))),
        VExpr::Cast(c, d) => VExprView::Cast(Box::new(vexpr_view(*c)), d@),
    }
}

impl View for VExpr {
    type V = VExprView;

    open spec fn view(&self) -> VExprView {
        vexpr_view(*self)
    }
}

/// Every literal of the expression can be built without a Vortex constructor panicking, and every
/// cast target is a boolean, primitive or UTF-8 dtype.
pub open spec fn vexpr_constructible(e: VExprView) -> bool
    decreases e,
{
    match e {
        VExprView::Column(_) => true,
        VExprView::GetItem(_, c) => vexpr_constructible(*c),
        VExprView::Literal(s) => vscalar_constructible(s),
        VExprView::Binary(l, _, r) => vexpr_constructible(*l) && vexpr_constructible(*r),
        VExprView::Not(c) => vexpr_constructible(*c),
        VExprView::IsNull(c) => vexpr_constructible(*c),
        VExprView::IsNotNull(c) => vexpr_constructible(*c),
        VExprView::Cast(c, d) => vexpr_constructible(*c) && (d is Bool || d is Primitive
            || d is Utf8),
    }
}

} // verus!
