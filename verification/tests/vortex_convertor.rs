use polars_vortex::aexpr::{
    AExpr, Arena, CastOptions, DynLiteralValue, IRBooleanFunction, IRFunctionExpr,
    IRStructFunction, LiteralValue, Operator,
};
use polars_vortex::pl_dtype::{DataType, Field, Schema};
use polars_vortex::pl_scalar::{AnyValue, Scalar};
use polars_vortex::predicates::vortex_convertor::{aexpr_to_vexpr, aexpr_to_vortex_expression};
use polars_vortex::vx_model::{Nullability, PType, PValue, VBinaryOp, VDType, VExpr, VScalar};

fn col(arena: &mut Arena, name: &str) -> usize {
    arena.add(AExpr::Column(name.to_string()))
}

fn lit_i32(arena: &mut Arena, value: i32) -> usize {
    let scalar = Scalar::new(DataType::Int32, AnyValue::Int32(value));
    arena.add(AExpr::Literal(LiteralValue::Scalar(scalar)))
}

fn lit_i64(arena: &mut Arena, value: i64) -> usize {
    let scalar = Scalar::new(DataType::Int64, AnyValue::Int64(value));
    arena.add(AExpr::Literal(LiteralValue::Scalar(scalar)))
}

fn lit_f64(arena: &mut Arena, value: f64) -> usize {
    let scalar = Scalar::new(DataType::Float64, AnyValue::Float64(value.to_bits()));
    arena.add(AExpr::Literal(LiteralValue::Scalar(scalar)))
}

fn binop(arena: &mut Arena, left: usize, op: Operator, right: usize) -> usize {
    arena.add(AExpr::BinaryExpr { left, op, right })
}

fn boolean_fn(arena: &mut Arena, bf: IRBooleanFunction, arg: usize) -> usize {
    arena.add(AExpr::Function { input: vec![arg], function: IRFunctionExpr::Boolean(bf) })
}

fn cast(arena: &mut Arena, expr: usize, dtype: DataType, options: CastOptions) -> usize {
    arena.add(AExpr::Cast { expr, dtype, options })
}

fn struct_field(arena: &mut Arena, name: &str, arg: usize) -> usize {
    arena.add(AExpr::Function {
        input: vec![arg],
        function: IRFunctionExpr::StructExpr(IRStructFunction::FieldByName(name.to_string())),
    })
}

fn schema_of(cols: &[(&str, DataType)]) -> Schema {
    let mut s = Schema::new();
    for (name, dtype) in cols {
        s.with_column(name.to_string(), dtype.duplicate());
    }
    s
}

fn schema_a_b_int32() -> Schema {
    schema_of(&[("a", DataType::Int32), ("b", DataType::Int32)])
}

fn schema_a_bool() -> Schema {
    schema_of(&[("a", DataType::Boolean)])
}

fn schema_a_b_string() -> Schema {
    schema_of(&[("a", DataType::String), ("b", DataType::String)])
}

fn schema_struct() -> Schema {
    let struct_dtype = DataType::Struct(vec![
        Field { name: "inner".to_string(), dtype: DataType::String },
        Field { name: "count".to_string(), dtype: DataType::Int32 },
    ]);
    schema_of(&[("s", struct_dtype)])
}

fn converts(n: usize, arena: &Arena, schema: Option<&Schema>) -> bool {
    aexpr_to_vortex_expression(n, arena, schema).is_some()
}

fn comparison(op: Operator) -> bool {
    let mut arena = Arena::new();
    let c = col(&mut arena, "a");
    let l = lit_i32(&mut arena, 42);
    let n = binop(&mut arena, c, op, l);
    let schema = schema_a_b_int32();
    converts(n, &arena, Some(&schema))
}

fn eq_and_lt(op: Operator, schema: Option<&Schema>) -> bool {
    let mut arena = Arena::new();
    let c = col(&mut arena, "a");
    let l = lit_i32(&mut arena, 42);
    let eq_node = binop(&mut arena, c, Operator::Eq, l);
    let c2 = col(&mut arena, "b");
    let l2 = lit_i32(&mut arena, 7);
    let lt_node = binop(&mut arena, c2, Operator::Lt, l2);
    let n = binop(&mut arena, eq_node, op, lt_node);
    converts(n, &arena, schema)
}

fn unsupported_binop(op: Operator, value: i32) -> bool {
    let mut arena = Arena::new();
    let c = col(&mut arena, "a");
    let l = lit_i32(&mut arena, value);
    let n = binop(&mut arena, c, op, l);
    converts(n, &arena, None)
}

fn cast_column(dtype: DataType, options: CastOptions, schema: Option<&Schema>) -> bool {
    let mut arena = Arena::new();
    let c = col(&mut arena, "a");
    let n = cast(&mut arena, c, dtype, options);
    converts(n, &arena, schema)
}

#[test]
fn shape_column() {
    let mut arena = Arena::new();
    let n = col(&mut arena, "a");
    assert!(converts(n, &arena, None));
}

#[test]
fn shape_literal_scalar() {
    let mut arena = Arena::new();
    let n = lit_i32(&mut arena, 42);
    assert!(converts(n, &arena, None));
}

#[test]
fn shape_eq() {
    assert!(comparison(Operator::Eq));
}

#[test]
fn shape_not_eq() {
    assert!(comparison(Operator::NotEq));
}

#[test]
fn shape_lt() {
    assert!(comparison(Operator::Lt));
}

#[test]
fn shape_lt_eq() {
    assert!(comparison(Operator::LtEq));
}

#[test]
fn shape_gt() {
    assert!(comparison(Operator::Gt));
}

#[test]
fn shape_gt_eq() {
    assert!(comparison(Operator::GtEq));
}

#[test]
fn shape_eq_without_schema_returns_none() {
    let mut arena = Arena::new();
    let c = col(&mut arena, "a");
    let l = lit_i32(&mut arena, 42);
    let n = binop(&mut arena, c, Operator::Eq, l);
    assert!(!converts(n, &arena, None));
}

#[test]
fn shape_eq_cross_ptype_returns_none() {
    let mut arena = Arena::new();
    let c = col(&mut arena, "a");
    let l = lit_i64(&mut arena, 42);
    let n = binop(&mut arena, c, Operator::Eq, l);
    let schema = schema_a_b_int32();
    assert!(!converts(n, &arena, Some(&schema)));
}

#[test]
fn shape_lt_cross_ptype_returns_none() {
    let mut arena = Arena::new();
    let c = col(&mut arena, "a");
    let l = lit_f64(&mut arena, 1.0);
    let n = binop(&mut arena, c, Operator::Lt, l);
    let schema = schema_a_b_int32();
    assert!(!converts(n, &arena, Some(&schema)));
}

#[test]
fn shape_and() {
    let schema = schema_a_b_int32();
    assert!(eq_and_lt(Operator::And, Some(&schema)));
}

#[test]
fn shape_or() {
    let schema = schema_a_b_int32();
    assert!(eq_and_lt(Operator::Or, Some(&schema)));
}

#[test]
fn shape_and_without_schema_returns_none() {
    assert!(!eq_and_lt(Operator::And, None));
}

#[test]
fn shape_and_bitwise_int_returns_none() {
    let mut arena = Arena::new();
    let a = col(&mut arena, "a");
    let b = col(&mut arena, "b");
    let n = binop(&mut arena, a, Operator::And, b);
    let schema = schema_a_b_int32();
    assert!(!converts(n, &arena, Some(&schema)));
}

#[test]
fn shape_logical_and() {
    let schema = schema_a_b_int32();
    assert!(eq_and_lt(Operator::LogicalAnd, Some(&schema)));
}

#[test]
fn shape_logical_or() {
    let schema = schema_a_b_int32();
    assert!(eq_and_lt(Operator::LogicalOr, Some(&schema)));
}

#[test]
fn shape_is_null() {
    let mut arena = Arena::new();
    let c = col(&mut arena, "a");
    let n = boolean_fn(&mut arena, IRBooleanFunction::IsNull, c);
    assert!(converts(n, &arena, None));
}

#[test]
fn shape_is_not_null() {
    let mut arena = Arena::new();
    let c = col(&mut arena, "a");
    let n = boolean_fn(&mut arena, IRBooleanFunction::IsNotNull, c);
    assert!(converts(n, &arena, None));
}

#[test]
fn shape_not() {
    let mut arena = Arena::new();
    let c = col(&mut arena, "a");
    let l = lit_i32(&mut arena, 42);
    let eq_node = binop(&mut arena, c, Operator::Eq, l);
    let n = boolean_fn(&mut arena, IRBooleanFunction::Not, eq_node);
    let schema = schema_a_b_int32();
    assert!(converts(n, &arena, Some(&schema)));
}

#[test]
fn shape_not_without_schema_returns_none() {
    let mut arena = Arena::new();
    let c = col(&mut arena, "a");
    let l = lit_i32(&mut arena, 42);
    let eq_node = binop(&mut arena, c, Operator::Eq, l);
    let n = boolean_fn(&mut arena, IRBooleanFunction::Not, eq_node);
    assert!(!converts(n, &arena, None));
}

#[test]
fn shape_not_bitwise_int_returns_none() {
    let mut arena = Arena::new();
    let a = col(&mut arena, "a");
    let n = boolean_fn(&mut arena, IRBooleanFunction::Not, a);
    let schema = schema_a_b_int32();
    assert!(!converts(n, &arena, Some(&schema)));
}

#[test]
fn shape_not_bool_column_passes() {
    let mut arena = Arena::new();
    let a = col(&mut arena, "a");
    let n = boolean_fn(&mut arena, IRBooleanFunction::Not, a);
    let schema = schema_a_bool();
    assert!(converts(n, &arena, Some(&schema)));
}

#[test]
fn shape_plus_arithmetic() {
    let mut arena = Arena::new();
    let a = col(&mut arena, "a");
    let one = lit_i32(&mut arena, 1);
    let a_plus_1 = binop(&mut arena, a, Operator::Plus, one);
    let five = lit_i32(&mut arena, 5);
    let n = binop(&mut arena, a_plus_1, Operator::Eq, five);
    let schema = schema_a_b_int32();
    assert!(converts(n, &arena, Some(&schema)));
}

#[test]
fn shape_plus_ships_in_pr_2_2() {
    let mut arena = Arena::new();
    let c = col(&mut arena, "a");
    let l = lit_i32(&mut arena, 1);
    let n = binop(&mut arena, c, Operator::Plus, l);
    let schema = schema_a_b_int32();
    assert!(converts(n, &arena, Some(&schema)));
}

#[test]
fn shape_plus_without_schema_returns_none() {
    let mut arena = Arena::new();
    let c = col(&mut arena, "a");
    let l = lit_i32(&mut arena, 1);
    let n = binop(&mut arena, c, Operator::Plus, l);
    assert!(!converts(n, &arena, None));
}

#[test]
fn shape_plus_bool_column_returns_none() {
    let mut arena = Arena::new();
    let a = col(&mut arena, "a");
    let one = lit_i32(&mut arena, 1);
    let n = binop(&mut arena, a, Operator::Plus, one);
    let schema = schema_a_bool();
    assert!(!converts(n, &arena, Some(&schema)));
}

#[test]
fn shape_plus_string_column_returns_none() {
    let mut arena = Arena::new();
    let a = col(&mut arena, "a");
    let b = col(&mut arena, "b");
    let n = binop(&mut arena, a, Operator::Plus, b);
    let schema = schema_a_b_string();
    assert!(!converts(n, &arena, Some(&schema)));
}

#[test]
fn shape_plus_float_column_passes() {
    let mut arena = Arena::new();
    let a = col(&mut arena, "a");
    let b = col(&mut arena, "b");
    let n = binop(&mut arena, a, Operator::Plus, b);
    let schema = schema_of(&[("a", DataType::Float64), ("b", DataType::Float64)]);
    assert!(converts(n, &arena, Some(&schema)));
}

#[test]
fn shape_plus_nested_numeric_passes() {
    let mut arena = Arena::new();
    let a = col(&mut arena, "a");
    let b = col(&mut arena, "b");
    let a_plus_b = binop(&mut arena, a, Operator::Plus, b);
    let c = col(&mut arena, "c");
    let n = binop(&mut arena, a_plus_b, Operator::Plus, c);
    let schema = schema_of(&[("a", DataType::Int32), ("b", DataType::Int32), ("c", DataType::Int32)]);
    assert!(converts(n, &arena, Some(&schema)));
}

#[test]
fn shape_plus_with_multiply_operand_returns_none() {
    let mut arena = Arena::new();
    let a = col(&mut arena, "a");
    let b = col(&mut arena, "b");
    let a_times_b = binop(&mut arena, a, Operator::Multiply, b);
    let c = col(&mut arena, "c");
    let n = binop(&mut arena, a_times_b, Operator::Plus, c);
    let schema = schema_of(&[("a", DataType::Int32), ("b", DataType::Int32), ("c", DataType::Int32)]);
    assert!(!converts(n, &arena, Some(&schema)));
}

#[test]
fn shape_plus_cross_ptype_returns_none() {
    let mut arena = Arena::new();
    let a = col(&mut arena, "a");
    let one_i64 = lit_i64(&mut arena, 1);
    let n = binop(&mut arena, a, Operator::Plus, one_i64);
    let schema = schema_a_b_int32();
    assert!(!converts(n, &arena, Some(&schema)));
}

#[test]
fn shape_plus_int_plus_float_returns_none() {
    let mut arena = Arena::new();
    let a = col(&mut arena, "a");
    let one_f64 = lit_f64(&mut arena, 1.0);
    let n = binop(&mut arena, a, Operator::Plus, one_f64);
    let schema = schema_a_b_int32();
    assert!(!converts(n, &arena, Some(&schema)));
}

#[test]
fn shape_plus_uint_plus_int_returns_none() {
    let mut arena = Arena::new();
    let a = col(&mut arena, "a");
    let one_i32 = lit_i32(&mut arena, 1);
    let n = binop(&mut arena, a, Operator::Plus, one_i32);
    let schema = schema_of(&[("a", DataType::UInt32)]);
    assert!(!converts(n, &arena, Some(&schema)));
}

#[test]
fn shape_plus_cast_then_same_ptype_passes() {
    let mut arena = Arena::new();
    let a = col(&mut arena, "a");
    let cast_a = cast(&mut arena, a, DataType::Int64, CastOptions::Strict);
    let one_i64 = lit_i64(&mut arena, 1);
    let n = binop(&mut arena, cast_a, Operator::Plus, one_i64);
    let schema = schema_a_b_int32();
    assert!(converts(n, &arena, Some(&schema)));
}

#[test]
fn shape_plus_arithmetic_structural() {
    let mut arena = Arena::new();
    let a = col(&mut arena, "a");
    let one = lit_i32(&mut arena, 1);
    let a_plus_1 = binop(&mut arena, a, Operator::Plus, one);
    let five = lit_i32(&mut arena, 5);
    let n = binop(&mut arena, a_plus_1, Operator::Eq, five);
    let schema = schema_a_b_int32();
    let expr = aexpr_to_vortex_expression(n, &arena, Some(&schema)).expect("Some");
    let s = format!("{}", expr);
    assert!(s.contains("checked_add") || s.contains("+"), "expected checked_add or '+' in {s}");
    assert!(s.contains("a"), "expected column 'a' in {s}");
    assert!(s.contains("1"), "expected literal 1 in {s}");
    assert!(s.contains("5"), "expected literal 5 in {s}");
    assert!(s.contains("=") || s.contains("eq"), "expected eq operator in {s}");
}

#[test]
fn unsupported_minus_returns_none() {
    assert!(!unsupported_binop(Operator::Minus, 1));
}

#[test]
fn unsupported_multiply_returns_none() {
    assert!(!unsupported_binop(Operator::Multiply, 2));
}

#[test]
fn unsupported_xor_returns_none() {
    assert!(!unsupported_binop(Operator::Xor, 1));
}

#[test]
fn unsupported_eq_validity_returns_none() {
    assert!(!unsupported_binop(Operator::EqValidity, 1));
}

#[test]
fn unsupported_not_eq_validity_returns_none() {
    assert!(!unsupported_binop(Operator::NotEqValidity, 1));
}

#[test]
fn shape_cast_to_int64_ships_in_pr_2_3() {
    let schema = schema_a_b_int32();
    assert!(cast_column(DataType::Int64, CastOptions::Strict, Some(&schema)));
}

#[test]
fn shape_cast_to_float64() {
    let schema = schema_a_b_int32();
    assert!(cast_column(DataType::Float64, CastOptions::Strict, Some(&schema)));
}

#[test]
fn shape_cast_bool_to_bool() {
    let schema = schema_a_bool();
    assert!(cast_column(DataType::Boolean, CastOptions::Strict, Some(&schema)));
}

#[test]
fn shape_cast_string_to_string() {
    let schema = schema_a_b_string();
    assert!(cast_column(DataType::String, CastOptions::Strict, Some(&schema)));
}

#[test]
fn shape_cast_int_to_bool_returns_none() {
    let schema = schema_a_b_int32();
    assert!(!cast_column(DataType::Boolean, CastOptions::Strict, Some(&schema)));
}

#[test]
fn shape_cast_int_to_string_returns_none() {
    let schema = schema_a_b_int32();
    assert!(!cast_column(DataType::String, CastOptions::Strict, Some(&schema)));
}

#[test]
fn shape_cast_bool_to_int_returns_none() {
    let schema = schema_a_bool();
    assert!(!cast_column(DataType::Int64, CastOptions::Strict, Some(&schema)));
}

#[test]
fn shape_cast_string_to_int_returns_none() {
    let schema = schema_a_b_string();
    assert!(!cast_column(DataType::Int64, CastOptions::Strict, Some(&schema)));
}

#[test]
fn shape_cast_bool_to_string_returns_none() {
    let schema = schema_a_bool();
    assert!(!cast_column(DataType::String, CastOptions::Strict, Some(&schema)));
}

#[test]
fn shape_cast_string_to_bool_returns_none() {
    let schema = schema_a_b_string();
    assert!(!cast_column(DataType::Boolean, CastOptions::Strict, Some(&schema)));
}

#[test]
fn shape_cast_without_schema_returns_none() {
    assert!(!cast_column(DataType::Int64, CastOptions::Strict, None));
}

#[test]
fn shape_cast_non_strict_returns_none() {
    let schema = schema_a_b_int32();
    assert!(!cast_column(DataType::Int64, CastOptions::NonStrict, Some(&schema)));
}

#[test]
fn shape_cast_overflowing_returns_none() {
    let schema = schema_a_b_int32();
    assert!(!cast_column(DataType::Int64, CastOptions::Overflowing, Some(&schema)));
}

#[test]
fn shape_cast_to_decimal_returns_none() {
    let schema = schema_a_b_int32();
    assert!(!cast_column(DataType::Decimal(10, 2), CastOptions::Strict, Some(&schema)));
}

#[test]
fn shape_cast_then_compare() {
    let mut arena = Arena::new();
    let c = col(&mut arena, "a");
    let cast_node = cast(&mut arena, c, DataType::Int64, CastOptions::Strict);
    let l = lit_i64(&mut arena, 100);
    let n = binop(&mut arena, cast_node, Operator::Gt, l);
    let schema = schema_a_b_int32();
    assert!(converts(n, &arena, Some(&schema)));
}

#[test]
fn shape_struct_field_then_compare() {
    let mut arena = Arena::new();
    let s = col(&mut arena, "s");
    let field_node = struct_field(&mut arena, "inner", s);
    let lit_node = arena.add(AExpr::Literal(LiteralValue::Scalar(Scalar::new(
        DataType::String,
        AnyValue::String("x".to_string()),
    ))));
    let n = binop(&mut arena, field_node, Operator::Eq, lit_node);
    let schema = schema_struct();
    assert!(converts(n, &arena, Some(&schema)));
}

#[test]
fn shape_struct_field_without_schema_returns_none() {
    let mut arena = Arena::new();
    let s = col(&mut arena, "s");
    let n = struct_field(&mut arena, "inner", s);
    assert!(!converts(n, &arena, None));
}

#[test]
fn shape_struct_field_unknown_field_returns_none() {
    let mut arena = Arena::new();
    let s = col(&mut arena, "s");
    let n = struct_field(&mut arena, "nonexistent", s);
    let schema = schema_struct();
    assert!(!converts(n, &arena, Some(&schema)));
}

#[test]
fn shape_struct_field_on_int_column_returns_none() {
    let mut arena = Arena::new();
    let a = col(&mut arena, "a");
    let n = struct_field(&mut arena, "inner", a);
    let schema = schema_a_b_int32();
    assert!(!converts(n, &arena, Some(&schema)));
}

#[test]
fn shape_struct_field_nested() {
    let mut arena = Arena::new();
    let s = col(&mut arena, "s");
    let outer = struct_field(&mut arena, "outer", s);
    let inner = struct_field(&mut arena, "inner", outer);
    let inner_struct = DataType::Struct(vec![Field { name: "inner".to_string(), dtype: DataType::String }]);
    let outer_struct = DataType::Struct(vec![Field { name: "outer".to_string(), dtype: inner_struct }]);
    let schema = schema_of(&[("s", outer_struct)]);
    assert!(converts(inner, &arena, Some(&schema)));
}

#[test]
fn unsupported_literal_dyn_returns_none() {
    let mut arena = Arena::new();
    let n = arena.add(AExpr::Literal(LiteralValue::Dyn(DynLiteralValue::Int(42))));
    assert!(!converts(n, &arena, None));
}

#[test]
fn integration_nested_predicate() {
    let mut arena = Arena::new();
    let a = col(&mut arena, "a");
    let one = lit_i32(&mut arena, 1);
    let a_eq_1 = binop(&mut arena, a, Operator::Eq, one);
    let b = col(&mut arena, "b");
    let two = lit_i32(&mut arena, 2);
    let b_gt_2 = binop(&mut arena, b, Operator::Gt, two);
    let c = col(&mut arena, "c");
    let c_is_null = boolean_fn(&mut arena, IRBooleanFunction::IsNull, c);
    let inner_or = binop(&mut arena, b_gt_2, Operator::Or, c_is_null);
    let root_node = binop(&mut arena, a_eq_1, Operator::And, inner_or);
    let schema = schema_of(&[("a", DataType::Int32), ("b", DataType::Int32), ("c", DataType::Int32)]);
    assert!(converts(root_node, &arena, Some(&schema)));
}

#[test]
fn integration_unsupported_subexpr_returns_none() {
    let mut arena = Arena::new();
    let a = col(&mut arena, "a");
    let one = lit_i32(&mut arena, 1);
    let a_minus_1 = binop(&mut arena, a, Operator::Minus, one);
    let five = lit_i32(&mut arena, 5);
    let n = binop(&mut arena, a_minus_1, Operator::Eq, five);
    assert!(!converts(n, &arena, None));
}

// The plain description of the converted predicate, node by node.

#[test]
fn plus_then_eq_description() {
    let mut arena = Arena::new();
    let a = col(&mut arena, "a");
    let one = lit_i32(&mut arena, 1);
    let a_plus_1 = binop(&mut arena, a, Operator::Plus, one);
    let five = lit_i32(&mut arena, 5);
    let n = binop(&mut arena, a_plus_1, Operator::Eq, five);
    let schema = schema_a_b_int32();
    let e = aexpr_to_vexpr(n, &arena, Some(&schema)).expect("Some");
    let column_a = VExpr::Column("a".to_string());
    let lit = |v: i32| VExpr::Literal(VScalar::Primitive(PValue::I32(v), Nullability::Nullable));
    let expected = VExpr::Binary(
        Box::new(VExpr::Binary(Box::new(column_a), VBinaryOp::CheckedAdd, Box::new(lit(1)))),
        VBinaryOp::Eq,
        Box::new(lit(5)),
    );
    assert_eq!(format!("{:?}", e), format!("{:?}", expected));
}

#[test]
fn cast_description_targets_nullable_primitive() {
    let mut arena = Arena::new();
    let a = col(&mut arena, "a");
    let n = cast(&mut arena, a, DataType::Int64, CastOptions::Strict);
    let schema = schema_a_b_int32();
    let e = aexpr_to_vexpr(n, &arena, Some(&schema)).expect("Some");
    let expected = VExpr::Cast(
        Box::new(VExpr::Column("a".to_string())),
        VDType::Primitive(PType::I64, Nullability::Nullable),
    );
    assert_eq!(format!("{:?}", e), format!("{:?}", expected));
}

#[test]
fn logical_and_maps_to_and_and_bitwise_and_of_bools_too() {
    let mut arena = Arena::new();
    let a = col(&mut arena, "a");
    let b = col(&mut arena, "b");
    let n = binop(&mut arena, a, Operator::And, b);
    let schema = schema_of(&[("a", DataType::Boolean), ("b", DataType::Boolean)]);
    let e = aexpr_to_vexpr(n, &arena, Some(&schema)).expect("Some");
    match e {
        VExpr::Binary(_, op, _) => assert_eq!(op, VBinaryOp::And),
        other => panic!("unexpected {other:?}"),
    }
}

#[test]
fn struct_field_description_nests_get_item() {
    let mut arena = Arena::new();
    let s = col(&mut arena, "s");
    let n = struct_field(&mut arena, "inner", s);
    let schema = schema_struct();
    let e = aexpr_to_vexpr(n, &arena, Some(&schema)).expect("Some");
    let expected = VExpr::GetItem(
        "inner".to_string(),
        Box::new(VExpr::Column("s".to_string())),
    );
    assert_eq!(format!("{:?}", e), format!("{:?}", expected));
}

#[test]
fn unknown_column_in_comparison_returns_none() {
    let mut arena = Arena::new();
    let c = col(&mut arena, "zzz");
    let l = lit_i32(&mut arena, 1);
    let n = binop(&mut arena, c, Operator::Eq, l);
    let schema = schema_a_b_int32();
    assert!(!converts(n, &arena, Some(&schema)));
}

#[test]
fn null_literal_does_not_convert() {
    let mut arena = Arena::new();
    let n = arena.add(AExpr::Literal(LiteralValue::Scalar(Scalar::new(DataType::Null, AnyValue::Null))));
    assert!(!converts(n, &arena, None));
}

fn rendered(n: usize, arena: &Arena, schema: Option<&Schema>) -> String {
    format!("{}", aexpr_to_vortex_expression(n, arena, schema).expect("converts"))
}

#[test]
fn built_expressions_render_their_operators() {
    let mut arena = Arena::new();
    let a = col(&mut arena, "a");
    let is_null = boolean_fn(&mut arena, IRBooleanFunction::IsNull, a);
    assert!(rendered(is_null, &arena, None).contains("is_null("));
    let is_not_null = boolean_fn(&mut arena, IRBooleanFunction::IsNotNull, a);
    assert!(rendered(is_not_null, &arena, None).contains("is_not_null("));

    let schema = schema_a_bool();
    let not = boolean_fn(&mut arena, IRBooleanFunction::Not, a);
    assert!(rendered(not, &arena, Some(&schema)).contains("not("));

    let cast_node = cast(&mut arena, a, DataType::Boolean, CastOptions::Strict);
    let s = rendered(cast_node, &arena, Some(&schema));
    assert!(s.contains("cast(") && s.contains(" as "), "{s}");
}

#[test]
fn struct_field_renders_as_nested_field_access() {
    let mut arena = Arena::new();
    let s = col(&mut arena, "s");
    let n = struct_field(&mut arena, "inner", s);
    let schema = schema_struct();
    let text = rendered(n, &arena, Some(&schema));
    assert!(text.contains(".s.inner"), "{text}");
}

#[test]
fn unbuildable_literal_refuses_only_its_own_predicate() {
    let mut arena = Arena::new();
    // An out-of-range time literal elsewhere in the arena.
    let bad = arena.add(AExpr::Literal(LiteralValue::Scalar(Scalar::new(DataType::Time, AnyValue::Time(-1)))));
    let c = col(&mut arena, "a");
    let l = lit_i32(&mut arena, 1);
    let n = binop(&mut arena, c, Operator::Eq, l);
    let schema = schema_a_b_int32();
    assert!(converts(n, &arena, Some(&schema)));
    assert!(!converts(bad, &arena, None));
}

#[test]
fn comparison_with_unknown_zone_literal_is_refused() {
    let mut arena = Arena::new();
    let zone = "Bogus/Zone".to_string();
    let dt = DataType::Datetime(polars_vortex::pl_dtype::TimeUnit::Milliseconds, Some(zone.clone()));
    let c = col(&mut arena, "t");
    let l = arena.add(AExpr::Literal(LiteralValue::Scalar(Scalar::new(
        dt.duplicate(),
        AnyValue::Datetime(5, polars_vortex::pl_dtype::TimeUnit::Milliseconds, Some(zone)),
    ))));
    let n = binop(&mut arena, c, Operator::Eq, l);
    let schema = schema_of(&[("t", dt)]);
    assert!(aexpr_to_vexpr(n, &arena, Some(&schema)).is_some());
    assert!(!converts(n, &arena, Some(&schema)));
}

use vortex_array::dtype::{DType as VxDType, Nullability as VxNullability, PType as VxPType};
use vortex_array::expr::{cast as vx_cast, checked_add, eq, get_item, lit, root};
use vortex_array::scalar::Scalar as VxScalar;

#[test]
fn column_is_get_item_on_root() {
    let mut arena = Arena::new();
    let n = col(&mut arena, "a");
    let e = aexpr_to_vortex_expression(n, &arena, None).expect("converts");
    assert_eq!(e, get_item("a", root()));
}

#[test]
fn plus_then_eq_builds_the_expected_tree() {
    let mut arena = Arena::new();
    let a = col(&mut arena, "a");
    let one = lit_i32(&mut arena, 1);
    let a_plus_1 = binop(&mut arena, a, Operator::Plus, one);
    let five = lit_i32(&mut arena, 5);
    let n = binop(&mut arena, a_plus_1, Operator::Eq, five);
    let schema = schema_a_b_int32();
    let e = aexpr_to_vortex_expression(n, &arena, Some(&schema)).expect("converts");
    let nul = VxNullability::Nullable;
    let expected = eq(
        checked_add(get_item("a", root()), lit(VxScalar::primitive(1i32, nul))),
        lit(VxScalar::primitive(5i32, nul)),
    );
    assert_eq!(e, expected);
}

#[test]
fn strict_cast_builds_cast_to_nullable_target() {
    let mut arena = Arena::new();
    let a = col(&mut arena, "a");
    let n = cast(&mut arena, a, DataType::Int64, CastOptions::Strict);
    let schema = schema_a_b_int32();
    let e = aexpr_to_vortex_expression(n, &arena, Some(&schema)).expect("converts");
    assert_eq!(e, vx_cast(get_item("a", root()), VxDType::Primitive(VxPType::I64, VxNullability::Nullable)));
}
