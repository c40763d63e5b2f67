//! Converts a Polars predicate (an `AExpr` tree in an arena) into a Vortex filter expression.
//!
//! A predicate converts only when every node in it maps to a Vortex expression that Vortex can
//! evaluate without a scan-time error; otherwise the result is `None` and the predicate stays a
//! residual filter. Polars always re-applies the full predicate after decoding, so `None` is the
//! safe answer.
//!
//! | Polars shape | Vortex expression | gate |
//! |---|---|---|
//! | `Column(name)` | `get_item(name, root())` | |
//! | `Literal(Scalar)` | `lit(scalar)` | |
//! | `Eq`/`NotEq`/`Lt`/`LtEq`/`Gt`/`GtEq` | `eq`/`not_eq`/`lt`/`lt_eq`/`gt`/`gt_eq` | operands resolve to the same dtype |
//! | `And`/`Or` | `and`/`or` | both operands boolean |
//! | `LogicalAnd`/`LogicalOr` | `and`/`or` | |
//! | `Plus` | `checked_add` | both operands numeric, of the same dtype |
//! | strict `Cast` to a boolean, numeric or string dtype | `cast` | source of the same kind |
//! | struct field access | `get_item(field, inner)` | inner struct has the field |
//! | `IsNull` / `IsNotNull` | `is_null` / `is_not_null` | |
//! | `Not` | `not` | operand boolean |
//!
//! The gates need the schema; without one, the gated shapes do not convert.
use vstd::prelude::*;
use crate::aexpr::{
    arena_wf, children_below, AExpr, Arena, CastOptions, IRBooleanFunction, IRFunctionExpr,
    IRStructFunction, LiteralValue, Operator,
};
use crate::pl_dtype::{
    cast_kind_compatible, cast_kind_compatible_view, dtype_eq, field_lookup, is_numeric_view,
    is_vortex_numeric_dtype, struct_field_dtype, struct_field_dtype_view, struct_field_exists,
    struct_field_exists_view, DataType, DataTypeView, FieldView, Schema,
};
use crate::read::predicate::{polars_scalar_to_vscalar, scalar_to_vscalar_spec};
use crate::vx_emit::{vexpr_has_zoned_literal, vexpr_to_vortex, vortex_expr_of};
use crate::vx_model::{vexpr_constructible, vscalar_constructible};
use vortex_array::expr::Expression;
use crate::vx_model::{
    vop_bool_logic, vop_int_arith, vop_int_relation, Nullability, PType, VBinaryOp, VDType, VDTypeView,
    VExpr, VExprView,
};

verus! {

/// The six comparison operators.
pub open spec fn is_comparison(op: Operator) -> bool {
    op == Operator::Eq || op == Operator::NotEq || op == Operator::Lt || op == Operator::LtEq
        || op == Operator::Gt || op == Operator::GtEq
}

/// Operators whose result is boolean whatever their operands.
pub open spec fn produces_boolean(op: Operator) -> bool {
    is_comparison(op) || op == Operator::EqValidity || op == Operator::NotEqValidity || op
        == Operator::LogicalAnd || op == Operator::LogicalOr
}

/// The Vortex operator a Polars binary operator maps to.
pub open spec fn binop_spec(op: Operator) -> Option<VBinaryOp> {
    match op {
        Operator::Eq => Some(VBinaryOp::Eq),
        Operator::NotEq => Some(VBinaryOp::NotEq),
        Operator::Lt => Some(VBinaryOp::Lt),
        Operator::LtEq => Some(VBinaryOp::LtEq),
        Operator::Gt => Some(VBinaryOp::Gt),
        Operator::GtEq => Some(VBinaryOp::GtEq),
        Operator::And | Operator::LogicalAnd => Some(VBinaryOp::And),
        Operator::Or | Operator::LogicalOr => Some(VBinaryOp::Or),
        Operator::Plus => Some(VBinaryOp::CheckedAdd),
        _ => None,
    }
}

/// The nullable Vortex dtype that a strict cast to this Polars dtype targets (boolean, numeric
/// and string targets only).
pub open spec fn cast_target_spec(d: DataTypeView) -> Option<VDTypeView> {
    let n = Nullability::Nullable;
    match d {
        DataTypeView::Boolean => Some(VDTypeView::Bool(n)),
        DataTypeView::Int8 => Some(VDTypeView::Primitive(PType::I8, n)),
        DataTypeView::Int16 => Some(VDTypeView::Primitive(PType::I16, n)),
        DataTypeView::Int32 => Some(VDTypeView::Primitive(PType::I32, n)),
        DataTypeView::Int64 => Some(VDTypeView::Primitive(PType::I64, n)),
        DataTypeView::UInt8 => Some(VDTypeView::Primitive(PType::U8, n)),
        DataTypeView::UInt16 => Some(VDTypeView::Primitive(PType::U16, n)),
        DataTypeView::UInt32 => Some(VDTypeView::Primitive(PType::U32, n)),
        DataTypeView::UInt64 => Some(VDTypeView::Primitive(PType::U64, n)),
        DataTypeView::Float32 => Some(VDTypeView::Primitive(PType::F32, n)),
        DataTypeView::Float64 => Some(VDTypeView::Primitive(PType::F64, n)),
        DataTypeView::String => Some(VDTypeView::Utf8(n)),
        _ => None,
    }
}

/// The dtype of node `n` where it can be read off without evaluation: a column's schema dtype, a
/// scalar literal's dtype, a cast's target, boolean for comparisons and boolean functions, the
/// common dtype of a `Plus` of same-dtype operands, and a struct field's dtype.
pub open spec fn resolve_spec(arena: Seq<AExpr>, n: int, schema: Seq<FieldView>) -> Option<DataTypeView>
    decreases n,
{
    if !(0 <= n < arena.len()) {
        None
    } else {
        match arena[n] {
            AExpr::Column(name) => field_lookup(schema, name@),
            AExpr::Literal(LiteralValue::Scalar(s)) => Some(s.dtype@),
            AExpr::Literal(_) => None,
            AExpr::Cast { dtype, .. } => Some(dtype@),
            AExpr::BinaryExpr { left, op, right } => if produces_boolean(op) {
                Some(DataTypeView::Boolean)
            } else if op == Operator::Plus && left < n && right < n {
                let l = resolve_spec(arena, left as int, schema);
                let r = resolve_spec(arena, right as int, schema);
                if l is Some && l == r {
                    l
                } else {
                    None
                }
            } else {
                None
            },
            AExpr::Function { input, function } => match function {
                IRFunctionExpr::Boolean(bf) => if bf == IRBooleanFunction::IsNull || bf
                    == IRBooleanFunction::IsNotNull || bf == IRBooleanFunction::Not {
                    Some(DataTypeView::Boolean)
                } else {
                    None
                },
                IRFunctionExpr::StructExpr(IRStructFunction::FieldByName(name)) => if input@.len()
                    > 0 && input@[0] < n {
                    match resolve_spec(arena, input@[0] as int, schema) {
                        Some(inner) => struct_field_dtype_view(inner, name@),
                        None => None,
                    }
                } else {
                    None
                },
                _ => None,
            },
            AExpr::Other(_) => None,
        }
    }
}

/// Node `n` is known to produce booleans (bitwise `And`/`Or`/`Not` count only on boolean
/// operands).
pub open spec fn is_bool_spec(arena: Seq<AExpr>, n: int, schema: Seq<FieldView>) -> bool
    decreases n,
{
    if !(0 <= n < arena.len()) {
        false
    } else {
        match arena[n] {
            AExpr::Column(name) => field_lookup(schema, name@) == Some(DataTypeView::Boolean),
            AExpr::Literal(LiteralValue::Scalar(s)) => s.dtype@ is Boolean,
            AExpr::Literal(_) => false,
            AExpr::BinaryExpr { left, op, right } => if produces_boolean(op) {
                true
            } else if (op == Operator::And || op == Operator::Or) && left < n && right < n {
                is_bool_spec(arena, left as int, schema) && is_bool_spec(arena, right as int, schema)
            } else {
                false
            },
            AExpr::Function { input, function } => match function {
                IRFunctionExpr::Boolean(bf) => if bf == IRBooleanFunction::IsNull || bf
                    == IRBooleanFunction::IsNotNull {
                    true
                } else if bf == IRBooleanFunction::Not && input@.len() > 0 && input@[0] < n {
                    is_bool_spec(arena, input@[0] as int, schema)
                } else {
                    false
                },
                _ => false,
            },
            _ => false,
        }
    }
}

/// Node `n` is known to produce one of the numeric dtypes.
pub open spec fn is_numeric_spec(arena: Seq<AExpr>, n: int, schema: Seq<FieldView>) -> bool
    decreases n,
{
    if !(0 <= n < arena.len()) {
        false
    } else {
        match arena[n] {
            AExpr::Column(name) => match field_lookup(schema, name@) {
                Some(d) => is_numeric_view(d),
                None => false,
            },
            AExpr::Literal(LiteralValue::Scalar(s)) => is_numeric_view(s.dtype@),
            AExpr::BinaryExpr { left, op, right } => if op == Operator::Plus && left < n && right
                < n {
                is_numeric_spec(arena, left as int, schema) && is_numeric_spec(
                    arena,
                    right as int,
                    schema,
                )
            } else {
                false
            },
            AExpr::Cast { dtype, .. } => is_numeric_view(dtype@),
            _ => false,
        }
    }
}

/// Both operands resolve to one and the same dtype.
pub open spec fn same_resolved_dtype(arena: Seq<AExpr>, l: int, r: int, schema: Seq<FieldView>) -> bool {
    resolve_spec(arena, l, schema) is Some && resolve_spec(arena, l, schema) == resolve_spec(
        arena,
        r,
        schema,
    )
}

/// The schema gates of a binary node.
pub open spec fn binary_gates_hold(
    arena: Seq<AExpr>,
    l: int,
    op: Operator,
    r: int,
    schema: Option<Seq<FieldView>>,
) -> bool {
    &&& (op == Operator::And || op == Operator::Or) ==> (schema matches Some(s) && is_bool_spec(
        arena,
        l,
        s,
    ) && is_bool_spec(arena, r, s))
    &&& op == Operator::Plus ==> (schema matches Some(s) && is_numeric_spec(arena, l, s)
        && is_numeric_spec(arena, r, s) && same_resolved_dtype(arena, l, r, s))
    &&& is_comparison(op) ==> (schema matches Some(s) && same_resolved_dtype(arena, l, r, s))
}

/// The literal expression for a scalar literal that Vortex can build without panicking (other
/// literals do not convert).
pub open spec fn literal_spec(lv: LiteralValue) -> Option<VExprView> {
    match lv {
        LiteralValue::Scalar(s) => match scalar_to_vscalar_spec(s) {
            Some(v) => if vscalar_constructible(v) {
                Some(VExprView::Literal(v))
            } else {
                None
            },
            None => None,
        },
        _ => None,
    }
}

/// The Vortex filter expression for node `n`, or `None` when some node of the tree does not
/// convert.
pub open spec fn convert_spec(arena: Seq<AExpr>, n: int, schema: Option<Seq<FieldView>>) -> Option<VExprView>
    decreases n,
{
    if !(0 <= n < arena.len()) {
        None
    } else {
        match arena[n] {
            AExpr::Column(name) => Some(VExprView::Column(name@)),
            AExpr::Literal(lv) => literal_spec(lv),
            AExpr::BinaryExpr { left, op, right } => if !(left < n && right < n) {
                None
            } else if !binary_gates_hold(arena, left as int, op, right as int, schema) {
                None
            } else {
                match (
                    convert_spec(arena, left as int, schema),
                    convert_spec(arena, right as int, schema),
                ) {
                    (Some(a), Some(b)) => match binop_spec(op) {
                        Some(bop) => Some(VExprView::Binary(Box::new(a), bop, Box::new(b))),
                        None => None,
                    },
                    _ => None,
                }
            },
            AExpr::Function { input, function } => if input@.len() == 0 || !(input@[0] < n) {
                None
            } else {
                let arg = input@[0] as int;
                match function {
                    IRFunctionExpr::Boolean(bf) => if bf == IRBooleanFunction::Not && !(
                    schema matches Some(s) && is_bool_spec(arena, arg, s)) {
                        None
                    } else {
                        match convert_spec(arena, arg, schema) {
                            Some(a) => if bf == IRBooleanFunction::IsNull {
                                Some(VExprView::IsNull(Box::new(a)))
                            } else if bf == IRBooleanFunction::IsNotNull {
                                Some(VExprView::IsNotNull(Box::new(a)))
                            } else if bf == IRBooleanFunction::Not {
                                Some(VExprView::Not(Box::new(a)))
                            } else {
                                None
                            },
                            None => None,
                        }
                    },
                    IRFunctionExpr::StructExpr(IRStructFunction::FieldByName(name)) => match schema {
                        Some(s) => match resolve_spec(arena, arg, s) {
                            Some(inner) => if !struct_field_exists_view(inner, name@) {
                                None
                            } else {
                                match convert_spec(arena, arg, schema) {
                                    Some(e) => Some(VExprView::GetItem(name@, Box::new(e))),
                                    None => None,
                                }
                            },
                            None => None,
                        },
                        None => None,
                    },
                    _ => None,
                }
            },
            AExpr::Cast { expr, dtype, options } => if options != CastOptions::Strict {
                None
            } else {
                match cast_target_spec(dtype@) {
                    Some(target) => match schema {
                        Some(s) => if !(expr < n) {
                            None
                        } else {
                            match resolve_spec(arena, expr as int, s) {
                                Some(src) => if !cast_kind_compatible_view(src, dtype@) {
                                    None
                                } else {
                                    match convert_spec(arena, expr as int, schema) {
                                        Some(c) => Some(VExprView::Cast(Box::new(c), target)),
                                        None => None,
                                    }
                                },
                                None => None,
                            }
                        },
                        None => None,
                    },
                    None => None,
                }
            },
            AExpr::Other(_) => None,
        }
    }
}

pub open spec fn schema_view(schema: Option<&Schema>) -> Option<Seq<FieldView>> {
    match schema {
        Some(s) => Some(s@),
        None => None,
    }
}

/// Convert a Polars dtype to the Vortex dtype a cast targets: boolean, the numeric dtypes and
/// string map to their nullable Vortex counterparts; every other dtype gives `None`.
pub fn polars_dtype_to_vortex_dtype(dt: &DataType) -> (r: Option<VDType>)
    ensures
        r matches Some(v) ==> cast_target_spec(dt@) == Some(v@),
        r is None ==> cast_target_spec(dt@) is None,
{
    let n = Nullability::Nullable;
    match dt {
        DataType::Boolean => Some(VDType::Bool(n)),
        DataType::Int8 => Some(VDType::Primitive(PType::I8, n)),
        DataType::Int16 => Some(VDType::Primitive(PType::I16, n)),
        DataType::Int32 => Some(VDType::Primitive(PType::I32, n)),
        DataType::Int64 => Some(VDType::Primitive(PType::I64, n)),
        DataType::UInt8 => Some(VDType::Primitive(PType::U8, n)),
        DataType::UInt16 => Some(VDType::Primitive(PType::U16, n)),
        DataType::UInt32 => Some(VDType::Primitive(PType::U32, n)),
        DataType::UInt64 => Some(VDType::Primitive(PType::U64, n)),
        DataType::Float32 => Some(VDType::Primitive(PType::F32, n)),
        DataType::Float64 => Some(VDType::Primitive(PType::F64, n)),
        DataType::String => Some(VDType::Utf8(n)),
        _ => None,
    }
}

fn is_comparison_op(op: Operator) -> (r: bool)
    ensures
        r == is_comparison(op),
{
    match op {
        Operator::Eq | Operator::NotEq | Operator::Lt | Operator::LtEq | Operator::Gt
        | Operator::GtEq => true,
        _ => false,
    }
}

fn produces_boolean_op(op: Operator) -> (r: bool)
    ensures
        r == produces_boolean(op),
{
    match op {
        Operator::Eq | Operator::NotEq | Operator::Lt | Operator::LtEq | Operator::Gt
        | Operator::GtEq | Operator::EqValidity | Operator::NotEqValidity | Operator::LogicalAnd
        | Operator::LogicalOr => true,
        _ => false,
    }
}

/// The dtype of `node` where it can be read off without evaluation (see [`resolve_spec`]).
pub fn resolve_inner_dtype(node: usize, arena: &Arena, schema: &Schema) -> (r: Option<DataType>)
    requires
        arena.wf(),
        node < arena@.len(),
    ensures
        r matches Some(d) ==> resolve_spec(arena@, node as int, schema@) == Some(d@),
        r is None ==> resolve_spec(arena@, node as int, schema@) is None,
    decreases node,
{
    proof {
        arena.lemma_wf();
        assert(children_below(arena@[node as int], node as int));
    }
    match arena.get(node) {
        AExpr::Column(name) => match schema.get(name) {
            Some(d) => Some(d.duplicate()),
            None => None,
        },
        AExpr::Literal(LiteralValue::Scalar(s)) => Some(s.dtype().duplicate()),
        AExpr::Literal(_) => None,
        AExpr::Cast { dtype, .. } => Some(dtype.duplicate()),
        AExpr::BinaryExpr { left, op, right } => {
            if produces_boolean_op(*op) {
                Some(DataType::Boolean)
            } else if *op == Operator::Plus {
                let l = resolve_inner_dtype(*left, arena, schema);
                let r = resolve_inner_dtype(*right, arena, schema);
                match (l, r) {
                    (Some(ld), Some(rd)) => if dtype_eq(&ld, &rd) {
                        Some(ld)
                    } else {
                        None
                    },
                    _ => None,
                }
            } else {
                None
            }
        },
        AExpr::Function { input, function } => match function {
            IRFunctionExpr::Boolean(bf) => match bf {
                IRBooleanFunction::IsNull | IRBooleanFunction::IsNotNull
                | IRBooleanFunction::Not => Some(DataType::Boolean),
                _ => None,
            },
            IRFunctionExpr::StructExpr(IRStructFunction::FieldByName(name)) => {
                if input.len() == 0 {
                    return None;
                }
                let arg = input[0];
                match resolve_inner_dtype(arg, arena, schema) {
                    Some(inner) => struct_field_dtype(&inner, name),
                    None => None,
                }
            },
            _ => None,
        },
        AExpr::Other(_) => None,
    }
}

/// Is `node` known to produce booleans? (see [`is_bool_spec`])
pub fn operand_is_bool(node: usize, arena: &Arena, schema: &Schema) -> (r: bool)
    requires
        arena.wf(),
        node < arena@.len(),
    ensures
        r == is_bool_spec(arena@, node as int, schema@),
    decreases node,
{
    proof {
        arena.lemma_wf();
        assert(children_below(arena@[node as int], node as int));
    }
    match arena.get(node) {
        AExpr::Column(name) => match schema.get(name) {
            Some(d) => d.is_boolean(),
            None => false,
        },
        AExpr::Literal(LiteralValue::Scalar(s)) => s.dtype().is_boolean(),
        AExpr::Literal(_) => false,
        AExpr::BinaryExpr { left, op, right } => {
            if produces_boolean_op(*op) {
                true
            } else if *op == Operator::And || *op == Operator::Or {
                operand_is_bool(*left, arena, schema) && operand_is_bool(*right, arena, schema)
            } else {
                false
            }
        },
        AExpr::Function { input, function } => match function {
            IRFunctionExpr::Boolean(bf) => match bf {
                IRBooleanFunction::IsNull | IRBooleanFunction::IsNotNull => true,
                IRBooleanFunction::Not => {
                    if input.len() == 0 {
                        false
                    } else {
                        operand_is_bool(input[0], arena, schema)
                    }
                },
                _ => false,
            },
            _ => false,
        },
        _ => false,
    }
}

/// Is `node` known to produce a numeric dtype? (see [`is_numeric_spec`])
pub fn operand_is_numeric(node: usize, arena: &Arena, schema: &Schema) -> (r: bool)
    requires
        arena.wf(),
        node < arena@.len(),
    ensures
        r == is_numeric_spec(arena@, node as int, schema@),
    decreases node,
{
    proof {
        arena.lemma_wf();
        assert(children_below(arena@[node as int], node as int));
    }
    match arena.get(node) {
        AExpr::Column(name) => match schema.get(name) {
            Some(d) => is_vortex_numeric_dtype(d),
            None => false,
        },
        AExpr::Literal(LiteralValue::Scalar(s)) => is_vortex_numeric_dtype(s.dtype()),
        AExpr::BinaryExpr { left, op, right } => {
            if *op == Operator::Plus {
                operand_is_numeric(*left, arena, schema) && operand_is_numeric(*right, arena, schema)
            } else {
                false
            }
        },
        AExpr::Cast { dtype, .. } => is_vortex_numeric_dtype(dtype),
        _ => false,
    }
}

/// Both operands resolve to one and the same dtype.
fn same_dtype(left: usize, right: usize, arena: &Arena, schema: &Schema) -> (r: bool)
    requires
        arena.wf(),
        left < arena@.len(),
        right < arena@.len(),
    ensures
        r == same_resolved_dtype(arena@, left as int, right as int, schema@),
{
    let l = resolve_inner_dtype(left, arena, schema);
    let r = resolve_inner_dtype(right, arena, schema);
    match (l, r) {
        (Some(ld), Some(rd)) => dtype_eq(&ld, &rd),
        _ => false,
    }
}

/// Convert a literal; only scalar literals convert.
pub fn convert_literal(lv: &LiteralValue) -> (r: Option<VExpr>)
    ensures
        r matches Some(e) ==> literal_spec(*lv) == Some(e@),
        r is None ==> literal_spec(*lv) is None,
{
    match lv {
        LiteralValue::Scalar(s) => match polars_scalar_to_vscalar(s) {
            Some(v) => if v.is_constructible() {
                Some(VExpr::Literal(v))
            } else {
                None
            },
            None => None,
        },
        _ => None,
    }
}

/// Convert the Polars predicate rooted at `root_node` into a Vortex filter expression, or `None`
/// when some node of the tree has no safe Vortex counterpart (see the module documentation).
pub fn aexpr_to_vexpr(root_node: usize, arena: &Arena, schema: Option<&Schema>) -> (r: Option<VExpr>)
    requires
        arena.wf(),
        root_node < arena@.len(),
    ensures
        r matches Some(e) ==> convert_spec(arena@, root_node as int, schema_view(schema)) == Some(
            e@,
        ),
        r is None ==> convert_spec(arena@, root_node as int, schema_view(schema)) is None,
    decreases root_node,
{
    proof {
        arena.lemma_wf();
        assert(children_below(arena@[root_node as int], root_node as int));
    }
    match arena.get(root_node) {
        AExpr::Column(name) => {
Some(VExpr::Column(name.clone()))
        },
        AExpr::Literal(lv) => convert_literal(lv),
        AExpr::BinaryExpr { left, op, right } => {
            let (l, o, r) = (*left, *op, *right);
            if o == Operator::And || o == Operator::Or {
                let s = match schema {
                    Some(s) => s,
                    None => return None,
                };
                if !operand_is_bool(l, arena, s) || !operand_is_bool(r, arena, s) {
                    return None;
                }
            }
            if o == Operator::Plus {
                let s = match schema {
                    Some(s) => s,
                    None => return None,
                };
                if !operand_is_numeric(l, arena, s) || !operand_is_numeric(r, arena, s) {
                    return None;
                }
                if !same_dtype(l, r, arena, s) {
                    return None;
                }
            }
            if is_comparison_op(o) {
                let s = match schema {
                    Some(s) => s,
                    None => return None,
                };
                if !same_dtype(l, r, arena, s) {
                    return None;
                }
            }
            let lhs = match aexpr_to_vexpr(l, arena, schema) {
                Some(e) => e,
                None => return None,
            };
            let rhs = match aexpr_to_vexpr(r, arena, schema) {
                Some(e) => e,
                None => return None,
            };
            let bop = match o {
                Operator::Eq => VBinaryOp::Eq,
                Operator::NotEq => VBinaryOp::NotEq,
                Operator::Lt => VBinaryOp::Lt,
                Operator::LtEq => VBinaryOp::LtEq,
                Operator::Gt => VBinaryOp::Gt,
                Operator::GtEq => VBinaryOp::GtEq,
                Operator::And | Operator::LogicalAnd => VBinaryOp::And,
                Operator::Or | Operator::LogicalOr => VBinaryOp::Or,
                Operator::Plus => VBinaryOp::CheckedAdd,
                _ => return None,
            };
            Some(VExpr::Binary(Box::new(lhs), bop, Box::new(rhs)))
        },
        AExpr::Function { input, function } => {
            if input.len() == 0 {
                return None;
            }
            let arg = input[0];
            match function {
                IRFunctionExpr::Boolean(bf) => {
                    if *bf == IRBooleanFunction::Not {
                        let s = match schema {
                            Some(s) => s,
                            None => return None,
                        };
                        if !operand_is_bool(arg, arena, s) {
                            return None;
                        }
                    }
                    let a = match aexpr_to_vexpr(arg, arena, schema) {
                        Some(e) => e,
                        None => return None,
                    };
                    match bf {
                        IRBooleanFunction::IsNull => Some(VExpr::IsNull(Box::new(a))),
                        IRBooleanFunction::IsNotNull => Some(VExpr::IsNotNull(Box::new(a))),
                        IRBooleanFunction::Not => Some(VExpr::Not(Box::new(a))),
                        _ => None,
                    }
                },
                IRFunctionExpr::StructExpr(IRStructFunction::FieldByName(name)) => {
                    let s = match schema {
                        Some(s) => s,
                        None => return None,
                    };
                    let inner_dtype = match resolve_inner_dtype(arg, arena, s) {
                        Some(d) => d,
                        None => return None,
                    };
                    if !struct_field_exists(&inner_dtype, name) {
                        return None;
                    }
                    let inner = match aexpr_to_vexpr(arg, arena, schema) {
                        Some(e) => e,
                        None => return None,
                    };
                    Some(VExpr::GetItem(name.clone(), Box::new(inner)))
                },
                _ => None,
            }
        },
        AExpr::Cast { expr, dtype, options } => {
            if !options.is_strict() {
                return None;
            }
            let target = match polars_dtype_to_vortex_dtype(dtype) {
                Some(t) => t,
                None => return None,
            };
            let s = match schema {
                Some(s) => s,
                None => return None,
            };
            let source = match resolve_inner_dtype(*expr, arena, s) {
                Some(d) => d,
                None => return None,
            };
            if !cast_kind_compatible(&source, dtype) {
                return None;
            }
            let child = match aexpr_to_vexpr(*expr, arena, schema) {
                Some(e) => e,
                None => return None,
            };
            Some(VExpr::Cast(Box::new(child), target))
        },
        AExpr::Other(_) => None,
    }
}

/// A converted predicate only holds literals and cast targets that Vortex can build.
pub proof fn lemma_converted_constructible(arena: Seq<AExpr>, n: int, schema: Option<Seq<FieldView>>)
    ensures
        convert_spec(arena, n, schema) matches Some(e) ==> vexpr_constructible(e),
    decreases n,
{
    if 0 <= n < arena.len() {
        match arena[n] {
            AExpr::BinaryExpr { left, op, right } => {
                if left < n && right < n {
                    lemma_converted_constructible(arena, left as int, schema);
                    lemma_converted_constructible(arena, right as int, schema);
                }
            },
            AExpr::Function { input, function } => {
                if input@.len() > 0 && input@[0] < n {
                    lemma_converted_constructible(arena, input@[0] as int, schema);
                }
            },
            AExpr::Cast { expr, .. } => {
                if expr < n {
                    lemma_converted_constructible(arena, expr as int, schema);
                }
            },
            _ => {
                assert(vexpr_constructible(VExprView::Column(Seq::empty())));
            },
        }
    }
}

/// The node shapes whose conversion consults the schema: comparisons, bitwise `And`/`Or`,
/// `Plus`, `Not`, struct field access and casts.
pub open spec fn schema_gated(e: AExpr) -> bool {
    match e {
        AExpr::BinaryExpr { op, .. } => is_comparison(op) || op == Operator::And || op
            == Operator::Or || op == Operator::Plus,
        AExpr::Function { function, .. } => match function {
            IRFunctionExpr::Boolean(bf) => bf == IRBooleanFunction::Not,
            IRFunctionExpr::StructExpr(IRStructFunction::FieldByName(_)) => true,
            _ => false,
        },
        AExpr::Cast { .. } => true,
        _ => false,
    }
}

/// Without a schema, no schema-gated shape converts: comparisons, bitwise `And`/`Or`, `Plus`,
/// `Not`, struct field access and casts all stay residual filters.
pub proof fn lemma_gated_shapes_need_schema(arena: Seq<AExpr>, n: int)
    requires
        0 <= n < arena.len(),
        schema_gated(arena[n]),
    ensures
        convert_spec(arena, n, None) is None,
{
}

/// A converted binary node met its gate (comparison operands of one dtype, boolean operands of
/// bitwise `And`/`Or`, numeric operands of one dtype for `Plus`), uses an operator that Vortex
/// has, and both of its operands converted.
pub proof fn lemma_converted_binary_respects_gates(arena: Seq<AExpr>, n: int, schema: Option<Seq<FieldView>>)
    requires
        convert_spec(arena, n, schema) is Some,
        0 <= n < arena.len(),
        arena[n] is BinaryExpr,
    ensures
        ({
            let (l, op, r) = (
                arena[n]->BinaryExpr_left as int,
                arena[n]->BinaryExpr_op,
                arena[n]->BinaryExpr_right as int,
            );
            &&& binary_gates_hold(arena, l, op, r, schema)
            &&& binop_spec(op) is Some
            &&& convert_spec(arena, l, schema) is Some
            &&& convert_spec(arena, r, schema) is Some
        }),
{
}

/// Binary operators without a Vortex counterpart (`Minus`, `Multiply`, the divisions, `Modulus`,
/// `Xor`, and the null-aware `EqValidity`/`NotEqValidity`) never convert, whatever the schema.
pub proof fn lemma_unsupported_operators_never_convert(
    arena: Seq<AExpr>,
    n: int,
    schema: Option<Seq<FieldView>>,
)
    requires
        0 <= n < arena.len(),
        arena[n] matches AExpr::BinaryExpr { op, .. } && binop_spec(op) is None,
    ensures
        convert_spec(arena, n, schema) is None,
{
}

/// A converted cast is strict, targets a boolean, numeric or string dtype, and its source
/// resolves (against the schema, which is present) to a dtype of the same kind.
pub proof fn lemma_converted_cast_respects_gates(arena: Seq<AExpr>, n: int, schema: Option<Seq<FieldView>>)
    requires
        convert_spec(arena, n, schema) is Some,
        0 <= n < arena.len(),
        arena[n] is Cast,
    ensures
        ({
            let (e, d, o) = (arena[n]->Cast_expr as int, arena[n]->Cast_dtype, arena[n]->Cast_options);
            &&& o == CastOptions::Strict
            &&& cast_target_spec(d@) is Some
            &&& schema matches Some(s) && resolve_spec(arena, e, s) matches Some(src)
                && cast_kind_compatible_view(src, d@)
            &&& convert_spec(arena, e, schema) is Some
        }),
{
}

/// A converted `Not` has a boolean operand; a converted struct field access reads a field that
/// the operand's (resolved) struct dtype has.
pub proof fn lemma_converted_function_respects_gates(
    arena: Seq<AExpr>,
    n: int,
    schema: Option<Seq<FieldView>>,
)
    requires
        convert_spec(arena, n, schema) is Some,
        0 <= n < arena.len(),
        arena[n] is Function,
    ensures
        ({
            let (input, function) = (arena[n]->Function_input, arena[n]->Function_function);
            &&& input@.len() > 0
            &&& convert_spec(arena, input@[0] as int, schema) is Some
            &&& function == IRFunctionExpr::Boolean(IRBooleanFunction::Not) ==> (schema matches Some(
                s,
            ) && is_bool_spec(arena, input@[0] as int, s))
            &&& function matches IRFunctionExpr::StructExpr(IRStructFunction::FieldByName(name))
                ==> (schema matches Some(s) && resolve_spec(arena, input@[0] as int, s) matches Some(
                inner,
            ) && struct_field_exists_view(inner, name@))
        }),
{
}

/// Node `to` lies in the predicate tree under node `from`, following the children that conversion
/// follows: both operands of a binary node, the input of a cast and the first input of a function.
pub open spec fn reaches(arena: Seq<AExpr>, from: int, to: int) -> bool
    decreases from,
{
    if !(0 <= from < arena.len()) {
        false
    } else if from == to {
        true
    } else {
        match arena[from] {
            AExpr::BinaryExpr { left, right, .. } => (left < from && reaches(arena, left as int, to))
                || (right < from && reaches(arena, right as int, to)),
            AExpr::Cast { expr, .. } => expr < from && reaches(arena, expr as int, to),
            AExpr::Function { input, .. } => input@.len() > 0 && input@[0] < from && reaches(
                arena,
                input@[0] as int,
                to,
            ),
            _ => false,
        }
    }
}

/// What node `n` needs of its operands and the schema: comparison, bitwise `And`/`Or` and `Plus`
/// operands meet their dtype gates; a cast is strict, to a bool, numeric or string dtype, from an
/// input of the same kind; `Not` has a boolean operand; a struct field access names a field of
/// its operand's struct dtype.
pub open spec fn node_gates_hold(arena: Seq<AExpr>, n: int, schema: Option<Seq<FieldView>>) -> bool {
    match arena[n] {
        AExpr::BinaryExpr { left, op, right } => binary_gates_hold(
            arena,
            left as int,
            op,
            right as int,
            schema,
        ) && binop_spec(op) is Some,
        AExpr::Cast { expr, dtype, options } => {
            &&& options == CastOptions::Strict
            &&& cast_target_spec(dtype@) is Some
            &&& schema matches Some(s) && resolve_spec(arena, expr as int, s) matches Some(src)
                && cast_kind_compatible_view(src, dtype@)
        },
        AExpr::Function { input, function } => {
            &&& input@.len() > 0
            &&& function == IRFunctionExpr::Boolean(IRBooleanFunction::Not) ==> (schema matches Some(
                s,
            ) && is_bool_spec(arena, input@[0] as int, s))
            &&& function matches IRFunctionExpr::StructExpr(IRStructFunction::FieldByName(name))
                ==> (schema matches Some(s) && resolve_spec(arena, input@[0] as int, s) matches Some(
                inner,
            ) && struct_field_exists_view(inner, name@))
        },
        _ => true,
    }
}

/// A refusal anywhere in the tree refuses the whole predicate: when the root converts, so does
/// every node under it, and every such node met its gate.
pub proof fn lemma_converted_tree_nodes_convert(
    arena: Seq<AExpr>,
    root: int,
    n: int,
    schema: Option<Seq<FieldView>>,
)
    requires
        convert_spec(arena, root, schema) is Some,
        reaches(arena, root, n),
    ensures
        convert_spec(arena, n, schema) is Some,
        node_gates_hold(arena, n, schema),
    decreases root,
{
    if root == n {
        match arena[n] {
            AExpr::BinaryExpr { .. } => {
                lemma_converted_binary_respects_gates(arena, n, schema);
            },
            AExpr::Cast { .. } => {
                lemma_converted_cast_respects_gates(arena, n, schema);
            },
            AExpr::Function { .. } => {
                lemma_converted_function_respects_gates(arena, n, schema);
            },
            _ => {},
        }
    } else {
        match arena[root] {
            AExpr::BinaryExpr { left, right, .. } => {
                lemma_converted_binary_respects_gates(arena, root, schema);
                if left < root && reaches(arena, left as int, n) {
                    lemma_converted_tree_nodes_convert(arena, left as int, n, schema);
                } else {
                    lemma_converted_tree_nodes_convert(arena, right as int, n, schema);
                }
            },
            AExpr::Cast { expr, .. } => {
                lemma_converted_cast_respects_gates(arena, root, schema);
                lemma_converted_tree_nodes_convert(arena, expr as int, n, schema);
            },
            AExpr::Function { input, .. } => {
                lemma_converted_function_respects_gates(arena, root, schema);
                lemma_converted_tree_nodes_convert(arena, input@[0] as int, n, schema);
            },
            _ => {},
        }
    }
}

/// What a Polars comparison states of two integer operands (`false` for the other operators).
pub open spec fn polars_int_relation(op: Operator, a: int, b: int) -> bool {
    match op {
        Operator::Eq => a == b,
        Operator::NotEq => a != b,
        Operator::Lt => a < b,
        Operator::LtEq => a <= b,
        Operator::Gt => a > b,
        Operator::GtEq => a >= b,
        _ => false,
    }
}

/// What a Polars operator gives for two boolean operands when it is a boolean connective
/// (bitwise and short-circuit `And`/`Or` agree on booleans; `false` for the other operators).
pub open spec fn polars_bool_logic(op: Operator, a: bool, b: bool) -> bool {
    match op {
        Operator::And | Operator::LogicalAnd => a && b,
        Operator::Or | Operator::LogicalOr => a || b,
        _ => false,
    }
}

/// What Polars `Plus` gives for two integer operands (`None` for the other operators).
pub open spec fn polars_int_arith(op: Operator, a: int, b: int) -> Option<int> {
    match op {
        Operator::Plus => Some(a + b),
        _ => None,
    }
}

/// The Vortex operator means on all operands what the Polars operator means.
pub open spec fn same_meaning(op: Operator, vop: VBinaryOp) -> bool {
    &&& forall|a: int, b: int| #[trigger] polars_int_relation(op, a, b) == vop_int_relation(vop, a, b)
    &&& forall|a: bool, b: bool| #[trigger] polars_bool_logic(op, a, b) == vop_bool_logic(vop, a, b)
    &&& forall|a: int, b: int| #[trigger] polars_int_arith(op, a, b) == vop_int_arith(vop, a, b)
}

/// A converted binary node becomes the Vortex binary expression of its converted operands, in
/// the same order, with an operator that means the same: comparisons state the same relation,
/// `And`/`Or` the same connective, `Plus` addition.
pub proof fn lemma_converted_binary_keeps_meaning(arena: Seq<AExpr>, n: int, schema: Option<Seq<FieldView>>)
    requires
        convert_spec(arena, n, schema) is Some,
        0 <= n < arena.len(),
        arena[n] is BinaryExpr,
    ensures
        ({
            let (left, op, right) = (
                arena[n]->BinaryExpr_left as int,
                arena[n]->BinaryExpr_op,
                arena[n]->BinaryExpr_right as int,
            );
            convert_spec(arena, n, schema) matches Some(VExprView::Binary(l, vop, r)) && Some(*l)
                == convert_spec(arena, left, schema) && Some(*r) == convert_spec(arena, right, schema)
                && same_meaning(op, vop)
        }),
{
}

/// An unsupported node anywhere in the tree (a binary operator without a Vortex counterpart, a
/// literal that does not convert, or any other shape that does not convert) refuses the whole
/// predicate, whatever the schema.
pub proof fn lemma_refused_node_refuses_tree(
    arena: Seq<AExpr>,
    root: int,
    n: int,
    schema: Option<Seq<FieldView>>,
)
    requires
        reaches(arena, root, n),
        convert_spec(arena, n, schema) is None,
    ensures
        convert_spec(arena, root, schema) is None,
{
    if convert_spec(arena, root, schema) is Some {
        lemma_converted_tree_nodes_convert(arena, root, n, schema);
    }
}

/// A literal anywhere in the tree that has no Vortex scalar (a null, a 128-bit integer, a
/// duration, an oversized decimal, or a non-scalar literal) or whose scalar Vortex cannot build
/// (an out-of-range decimal, datetime or time) refuses the whole predicate, whatever the schema.
pub proof fn lemma_unconvertible_literal_refuses_tree(
    arena: Seq<AExpr>,
    root: int,
    n: int,
    schema: Option<Seq<FieldView>>,
)
    requires
        reaches(arena, root, n),
        0 <= n < arena.len(),
        arena[n] matches AExpr::Literal(lv) && !(lv matches LiteralValue::Scalar(s) && (
        scalar_to_vscalar_spec(s) matches Some(v) && vscalar_constructible(v))),
    ensures
        convert_spec(arena, root, schema) is None,
{
    lemma_refused_node_refuses_tree(arena, root, n, schema);
}

/// Without a schema, a tree holding a schema-gated shape anywhere (comparison, bitwise
/// `And`/`Or`, `Plus`, `Not`, cast, struct field access) is refused.
pub proof fn lemma_gated_node_without_schema_refuses_tree(arena: Seq<AExpr>, root: int, n: int)
    requires
        reaches(arena, root, n),
        0 <= n < arena.len(),
        schema_gated(arena[n]),
    ensures
        convert_spec(arena, root, None) is None,
{
    lemma_gated_shapes_need_schema(arena, n);
    lemma_refused_node_refuses_tree(arena, root, n, None);
}

/// Convert the Polars predicate rooted at `root_node` into a Vortex filter expression for scan
/// push-down: when [`convert_spec`] gives an expression, it is built node by node with the
/// `vortex_array::expr` builders, each column as `col(name)` (`get_item(name, root())`). The build
/// succeeds unless Vortex rejects the time zone of a timestamp literal, which depends on the
/// machine's time-zone database.
pub fn aexpr_to_vortex_expression(root_node: usize, arena: &Arena, schema: Option<&Schema>) -> (r: Option<Expression>)
    requires
        arena.wf(),
        root_node < arena@.len(),
    ensures
        r matches Some(x) ==> convert_spec(arena@, root_node as int, schema_view(schema)) matches Some(
            v,
        ) && x == vortex_expr_of(v),
        convert_spec(arena@, root_node as int, schema_view(schema)) matches Some(v)
            && !vexpr_has_zoned_literal(v) ==> r is Some,
{
    match aexpr_to_vexpr(root_node, arena, schema) {
        Some(e) => {
            proof {
                lemma_converted_constructible(arena@, root_node as int, schema_view(schema));
            }
            vexpr_to_vortex(&e)
        },
        None => None,
    }
}

} // verus!
