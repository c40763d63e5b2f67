//! Polars' arena-allocated expression IR (`polars_plan`'s `AExpr` / `Arena<AExpr>`), as far as
//! predicate push-down reads it.
use vstd::prelude::*;
use crate::pl_dtype::DataType;
use crate::pl_scalar::Scalar;

verus! {

/// Binary operators of Polars expressions.
#[derive(Clone, Copy, Debug, PartialEq, Eq, Structural)]
pub enum Operator {
    Eq,
    EqValidity,
    NotEq,
    NotEqValidity,
    Lt,
    LtEq,
    Gt,
    GtEq,
    Plus,
    Minus,
    Multiply,
    RustDivide,
    TrueDivide,
    FloorDivide,
    Modulus,
    And,
    Or,
    Xor,
    LogicalAnd,
    LogicalOr,
}

/// Overflow behaviour of a Polars cast.
#[derive(Clone, Copy, Debug, PartialEq, Eq, Structural)]
pub enum CastOptions {
    /// Fail on values that do not fit the target type.
    Strict,
    /// Values that do not fit become null.
    NonStrict,
    /// Values that do not fit wrap around.
    Overflowing,
}

impl CastOptions {
    pub fn is_strict(&self) -> (r: bool)
        ensures
            r == (*self == CastOptions::Strict),
    {
        match self {
            CastOptions::Strict => true,
            _ => false,
        }
    }
}

/// Boolean functions of the Polars IR.
#[derive(Clone, Copy, Debug, PartialEq, Eq, Structural)]
pub enum IRBooleanFunction {
    IsNull,
    IsNotNull,
    Not,
    Any,
    All,
    IsNan,
    IsNotNan,
    IsIn,
    IsBetween,
    AllHorizontal,
    AnyHorizontal,
}

/// Struct functions of the Polars IR.
#[derive(Debug)]
pub enum IRStructFunction {
    FieldByName(String),
    /// Renaming, prefixing, suffixing, json encoding and the other struct functions.
    Other,
}

/// Function kinds of the Polars IR.
#[derive(Debug)]
pub enum IRFunctionExpr {
    Boolean(IRBooleanFunction),
    StructExpr(IRStructFunction),
    /// Temporal, string, list and the other function families.
    Other,
}

/// Dynamically-typed literal values (materialised against a target dtype later).
#[derive(Debug)]
pub enum DynLiteralValue {
    Int(i128),
    /// Bit pattern of an `f64`.
    Float(u64),
    Str(String),
}

/// Literal values of the Polars IR.
#[derive(Debug)]
pub enum LiteralValue {
    Scalar(Scalar),
    Dyn(DynLiteralValue),
    Series,
    Range,
}

/// An expression node; child nodes are arena indices.
#[derive(Debug)]
pub enum AExpr {
    Column(String),
    Literal(LiteralValue),
    BinaryExpr { left: usize, op: Operator, right: usize },
    Cast { expr: usize, dtype: DataType, options: CastOptions },
    Function { input: Vec<usize>, function: IRFunctionExpr },
    /// Sort, gather, filter, aggregation, ternary, window and the other node kinds, with their
    /// child nodes.
    Other(Vec<usize>),
}

/// Every child index of `e` is below `bound`.
pub open spec fn children_below(e: AExpr, bound: int) -> bool {
    match e {
        AExpr::Column(_) | AExpr::Literal(_) => true,
        AExpr::BinaryExpr { left, right, .. } => left < bound && right < bound,
        AExpr::Cast { expr, .. } => expr < bound,
        AExpr::Function { input, .. } => forall|k: int| 0 <= k < input@.len() ==> #[trigger] input@[k] < bound,
        AExpr::Other(input) => forall|k: int| 0 <= k < input@.len() ==> #[trigger] input@[k] < bound,
    }
}

/// Nodes only point at nodes added before them (which is how an arena is filled).
pub open spec fn arena_wf(items: Seq<AExpr>) -> bool {
    forall|i: int| 0 <= i < items.len() ==> children_below(#[trigger] items[i], i)
}

/// An append-only store of expression nodes.
#[derive(Debug)]
pub struct Arena {
    items: Vec<AExpr>,
}

impl View for Arena {
    type V = Seq<AExpr>;

    closed spec fn view(&self) -> Seq<AExpr> {
        self.items@
    }
}

impl Arena {
    /// The arena's nodes are well formed.
    pub closed spec fn wf(&self) -> bool {
        arena_wf(self.items@)
    }

    pub proof fn lemma_wf(&self)
        requires
            self.wf(),
        ensures
            arena_wf(self@),
    {
    }

    /// An empty arena.
    pub fn new() -> (r: Arena)
        ensures
            r.wf(),
            r@ == Seq::<AExpr>::empty(),
    {
        Arena { items: Vec::new() }
    }

    /// Number of nodes.
    pub fn len(&self) -> (r: usize)
        ensures
            r == self@.len(),
    {
        self.items.len()
    }

    /// Add a node whose children are already in the arena; returns its index.
    pub fn add(&mut self, e: AExpr) -> (r: usize)
        requires
            old(self).wf(),
            children_below(e, old(self)@.len() as int),
        ensures
            final(self).wf(),
            r == old(self)@.len(),
            final(self)@ == old(self)@.push(e),
    {
        let n = self.items.len();
        self.items.push(e);
        proof {
            assert forall|i: int| 0 <= i < self.items@.len() implies children_below(
                #[trigger] self.items@[i],
                i,
            ) by {
                if i < n {
                    assert(self.items@[i] == old(self).items@[i]);
                }
            }
        }
        n
    }

    /// The node at index `n`.
    pub fn get(&self, n: usize) -> (r: &AExpr)
        requires
            n < self@.len(),
        ensures
            *r == self@[n as int],
    {
        &self.items[n]
    }
}

} // verus!
