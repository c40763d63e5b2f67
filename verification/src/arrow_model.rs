//! Polars' Arrow types (`polars_arrow::datatypes`): the dtype, field and schema values that the
//! Vortex schema translation produces.
use vstd::prelude::*;

verus! {

/// Arrow time unit.
#[derive(Clone, Copy, Debug, PartialEq, Eq, Structural)]
pub enum ArrowTimeUnit {
    Second,
    Millisecond,
    Microsecond,
    Nanosecond,
}

/// A polars-arrow data type.
#[derive(Debug, PartialEq)]
pub enum ArrowDataType {
    Null,
    Boolean,
    Int8,
    Int16,
    Int32,
    Int64,
    UInt8,
    UInt16,
    UInt32,
    UInt64,
    Float16,
    Float32,
    Float64,
    /// 128-bit decimal: precision, scale.
    Decimal(usize, usize),
    /// 256-bit decimal: precision, scale.
    Decimal256(usize, usize),
    Utf8View,
    BinaryView,
    List(Box<ArrowField>),
    FixedSizeList(Box<ArrowField>, usize),
    Struct(Vec<ArrowField>),
    Timestamp(ArrowTimeUnit, Option<String>),
    Date32,
    Date64,
    Time32(ArrowTimeUnit),
    Time64(ArrowTimeUnit),
}

/// A polars-arrow field.
#[derive(Debug, PartialEq)]
pub struct ArrowField {
    pub name: String,
    pub dtype: ArrowDataType,
    pub is_nullable: bool,
}

/// Mathematical value of an [`ArrowDataType`].
pub enum ArrowDataTypeView {
    Null,
    Boolean,
    Int8,
    Int16,
    Int32,
    Int64,
    UInt8,
    UInt16,
    UInt32,
    UInt64,
    Float16,
    Float32,
    Float64,
    Decimal(usize, usize),
    Decimal256(usize, usize),
    Utf8View,
    BinaryView,
    List(Box<ArrowFieldView>),
    FixedSizeList(Box<ArrowFieldView>, usize),
    Struct(Seq<ArrowFieldView>),
    Timestamp(ArrowTimeUnit, Option<Seq<char>>),
    Date32,
    Date64,
    Time32(ArrowTimeUnit),
    Time64(ArrowTimeUnit),
}

/// Mathematical value of an [`ArrowField`].
pub struct ArrowFieldView {
    pub name: Seq<char>,
    pub dtype: ArrowDataTypeView,
    pub is_nullable: bool,
}

pub open spec fn arrow_dtype_view(d: ArrowDataType) -> ArrowDataTypeView
    decreases d,
{
    match d {
        ArrowDataType::Null => ArrowDataTypeView::Null,
        ArrowDataType::Boolean => ArrowDataTypeView::Boolean,
        ArrowDataType::Int8 => ArrowDataTypeView::Int8,
        ArrowDataType::Int16 => ArrowDataTypeView::Int16,
        ArrowDataType::Int32 => ArrowDataTypeView::Int32,
        ArrowDataType::Int64 => ArrowDataTypeView::Int64,
        ArrowDataType::UInt8 => ArrowDataTypeView::UInt8,
        ArrowDataType::UInt16 => ArrowDataTypeView::UInt16,
        ArrowDataType::UInt32 => ArrowDataTypeView::UInt32,
        ArrowDataType::UInt64 => ArrowDataTypeView::UInt64,
        ArrowDataType::Float16 => ArrowDataTypeView::Float16,
        ArrowDataType::Float32 => ArrowDataTypeView::Float32,
        ArrowDataType::Float64 => ArrowDataTypeView::Float64,
        ArrowDataType::Decimal(p, s) => ArrowDataTypeView::Decimal(p, s),
        ArrowDataType::Decimal256(p, s) => ArrowDataTypeView::Decimal256(p, s),
        ArrowDataType::Utf8View => ArrowDataTypeView::Utf8View,
        ArrowDataType::BinaryView => ArrowDataTypeView::BinaryView,
        ArrowDataType::List(f) => ArrowDataTypeView::List(
            Box::new(
                ArrowFieldView {
                    name: f.name@,
                    dtype: arrow_dtype_view(f.dtype),
                    is_nullable: f.is_nullable,
                },
            ),
        ),
        ArrowDataType::FixedSizeList(f, k) => ArrowDataTypeView::FixedSizeList(
            Box::new(
                ArrowFieldView {
                    name: f.name@,
                    dtype: arrow_dtype_view(f.dtype),
                    is_nullable: f.is_nullable,
                },
            ),
            k,
        ),
        ArrowDataType::Struct(fs) => ArrowDataTypeView::Struct(
            Seq::new(
                fs@.len(),
                |i: int|
                    ArrowFieldView {
                        name: fs@[i].name@,
                        dtype: if 0 <= i < fs@.len() {
                            arrow_dtype_view(fs@[i].dtype)
                        } else {
                            ArrowDataTypeView::Null
                        },
                        is_nullable: fs@[i].is_nullable,
                    },
            ),
        ),
        ArrowDataType::Timestamp(u, tz) => ArrowDataTypeView::Timestamp(
            u,
            crate::pl_dtype::opt_str_view(tz),
        ),
        ArrowDataType::Date32 => ArrowDataTypeView::Date32,
        ArrowDataType::Date64 => ArrowDataTypeView::Date64,
        ArrowDataType::Time32(u) => ArrowDataTypeView::Time32(u),
        ArrowDataType::Time64(u) => ArrowDataTypeView::Time64(u),
    }
}

impl View for ArrowDataType {
    type V = ArrowDataTypeView;

    open spec fn view(&self) -> ArrowDataTypeView {
        arrow_dtype_view(*self)
    }
}

impl View for ArrowField {
    type V = ArrowFieldView;

    open spec fn view(&self) -> ArrowFieldView {
        ArrowFieldView { name: self.name@, dtype: self.dtype@, is_nullable: self.is_nullable }
    }
}

/// The view of a list of fields, one for one.
pub open spec fn arrow_fields_view(fs: Vec<ArrowField>) -> Seq<ArrowFieldView> {
    (ArrowDataType::Struct(fs))@->Struct_0
}

pub proof fn lemma_arrow_fields_view(fs: Vec<ArrowField>)
    ensures
        arrow_fields_view(fs).len() == fs@.len(),
        forall|i: int| 0 <= i < fs@.len() ==> #[trigger] arrow_fields_view(fs)[i] == fs@[i]@,
{
}

/// A polars-arrow schema: fields in order, names unique.
#[derive(Debug)]
pub struct ArrowSchema {
    pub fields: Vec<ArrowField>,
}

impl View for ArrowSchema {
    type V = Seq<ArrowFieldView>;

    open spec fn view(&self) -> Seq<ArrowFieldView> {
        arrow_fields_view(self.fields)
    }
}

impl ArrowSchema {
    /// Number of fields.
    pub fn len(&self) -> (r: usize)
        ensures
            r == self@.len(),
    {
        self.fields.len()
    }
}

} // verus!
