//! Vortex dtype → polars-arrow dtype / schema translation.
//!
//! Mirrors Vortex's own `DType::to_arrow_dtype` case for case, producing polars-arrow's types:
//! UTF-8 and binary become the view variants, decimals pick 128 or 256 bits by precision, and the
//! temporal extensions become Arrow temporal types.
use vstd::prelude::*;
use crate::arrow_model::{
    arrow_fields_view, lemma_arrow_fields_view, ArrowDataType, ArrowDataTypeView, ArrowField,
    ArrowFieldView, ArrowSchema, ArrowTimeUnit,
};
use crate::text::{decimal_chars, decimal_text};
use crate::vx_model::{
    vdtype_nullable, Nullability, PType, TemporalMetadata, TemporalMetadataView, VDType, VDTypeView,
    VExtDType, VExtDTypeView, VStructField, VTimeUnit,
};

verus! {

/// Why a Vortex dtype has no polars-arrow counterpart.
#[derive(Debug)]
pub enum SchemaError {
    /// The top-level dtype of a file is not a struct (rendered as by its `Debug`, see
    /// [`vdtype_debug`]).
    TopLevelNotStruct(String),
    /// The top-level struct of a file is nullable.
    TopLevelNullable,
    /// Vortex `Variant` dtypes are not supported.
    VariantUnsupported,
    /// A decimal with a negative scale (polars-arrow scales are unsigned).
    NegativeDecimalScale(i8),
    /// A `Date` extension in a unit other than days or milliseconds.
    InvalidDateUnit(VTimeUnit),
    /// The `Days` unit on a timestamp or time extension (named by the string).
    DaysUnit(String),
    /// An extension dtype that is not one of the temporal ones (its id).
    UnsupportedExtension(String),
}

/// Mathematical value of a [`SchemaError`].
pub enum SchemaErrorView {
    TopLevelNotStruct(Seq<char>),
    TopLevelNullable,
    VariantUnsupported,
    NegativeDecimalScale(i8),
    InvalidDateUnit(VTimeUnit),
    DaysUnit(Seq<char>),
    UnsupportedExtension(Seq<char>),
}

impl View for SchemaError {
    type V = SchemaErrorView;

    open spec fn view(&self) -> SchemaErrorView {
        match *self {
            SchemaError::TopLevelNotStruct(d) => SchemaErrorView::TopLevelNotStruct(d@),
            SchemaError::TopLevelNullable => SchemaErrorView::TopLevelNullable,
            SchemaError::VariantUnsupported => SchemaErrorView::VariantUnsupported,
            SchemaError::NegativeDecimalScale(s) => SchemaErrorView::NegativeDecimalScale(s),
            SchemaError::InvalidDateUnit(u) => SchemaErrorView::InvalidDateUnit(u),
            SchemaError::DaysUnit(c) => SchemaErrorView::DaysUnit(c@),
            SchemaError::UnsupportedExtension(id) => SchemaErrorView::UnsupportedExtension(id@),
        }
    }
}

/// The `Debug` name of a nullability.
pub open spec fn nullability_name(n: Nullability) -> Seq<char> {
    match n {
        Nullability::NonNullable => "NonNullable"@,
        Nullability::Nullable => "Nullable"@,
    }
}

/// The `Debug` name of a primitive type.
pub open spec fn ptype_name(p: PType) -> Seq<char> {
    match p {
        PType::U8 => "U8"@,
        PType::U16 => "U16"@,
        PType::U32 => "U32"@,
        PType::U64 => "U64"@,
        PType::I8 => "I8"@,
        PType::I16 => "I16"@,
        PType::I32 => "I32"@,
        PType::I64 => "I64"@,
        PType::F16 => "F16"@,
        PType::F32 => "F32"@,
        PType::F64 => "F64"@,
    }
}

/// The `Debug` name of a time unit.
pub open spec fn time_unit_name(u: VTimeUnit) -> Seq<char> {
    match u {
        VTimeUnit::Nanoseconds => "Nanoseconds"@,
        VTimeUnit::Microseconds => "Microseconds"@,
        VTimeUnit::Milliseconds => "Milliseconds"@,
        VTimeUnit::Seconds => "Seconds"@,
        VTimeUnit::Days => "Days"@,
    }
}

/// What std's `Debug` of a `str` gives: the text quoted, with quotes, backslashes, control and
/// non-printable characters escaped.
pub uninterp spec fn str_debug(s: Seq<char>) -> Seq<char>;

/// Trusted: std's `Debug` formatting of a `str`.
#[verifier::external_body]
fn str_debug_text(s: &String) -> (r: String)
    ensures
        r@ == str_debug(s@),
{
    format!("{:?}", s.as_str())
}

/// The primitive storage type of a temporal extension dtype (`I64` for units Vortex does not
/// pair with the extension, which no Vortex dtype holds).
pub open spec fn temporal_storage(t: TemporalMetadataView) -> PType {
    match t {
        TemporalMetadataView::Timestamp(..) => PType::I64,
        TemporalMetadataView::Date(u) => if u == VTimeUnit::Days {
            PType::I32
        } else {
            PType::I64
        },
        TemporalMetadataView::Time(u) => if u == VTimeUnit::Milliseconds || u == VTimeUnit::Seconds {
            PType::I32
        } else {
            PType::I64
        },
    }
}

/// The extension id of a temporal extension dtype.
pub open spec fn temporal_id(t: TemporalMetadataView) -> Seq<char> {
    match t {
        TemporalMetadataView::Timestamp(..) => "vortex.timestamp"@,
        TemporalMetadataView::Date(_) => "vortex.date"@,
        TemporalMetadataView::Time(_) => "vortex.time"@,
    }
}

/// The `Debug` of the metadata of a temporal extension dtype.
pub open spec fn temporal_metadata_debug(t: TemporalMetadataView) -> Seq<char> {
    match t {
        TemporalMetadataView::Timestamp(u, tz) => "TimestampOptions { unit: "@ + time_unit_name(u)
            + ", tz: "@ + match tz {
            Some(z) => "Some("@ + str_debug(z) + ")"@,
            None => "None"@,
        } + " }"@,
        TemporalMetadataView::Date(u) => time_unit_name(u),
        TemporalMetadataView::Time(u) => time_unit_name(u),
    }
}

/// A dtype as Vortex's `Debug` renders it. Struct dtypes and extensions other than the temporal
/// ones are shown as `Struct(..)` and `Extension(..)`: the `Debug` of a struct's field dtypes
/// depends on whether Vortex holds them parsed or as flatbuffer views, and the metadata of other
/// extensions is not part of this model.
pub open spec fn vdtype_debug(d: VDTypeView) -> Seq<char>
    decreases d,
{
    match d {
        VDTypeView::Null => "Null"@,
        VDTypeView::Bool(n) => "Bool("@ + nullability_name(n) + ")"@,
        VDTypeView::Primitive(p, n) => "Primitive("@ + ptype_name(p) + ", "@ + nullability_name(n)
            + ")"@,
        VDTypeView::Decimal(p, sc, n) => "Decimal(DecimalDType { precision: "@ + decimal_chars(p as int)
            + ", scale: "@ + decimal_chars(sc as int) + " }, "@ + nullability_name(n) + ")"@,
        VDTypeView::Utf8(n) => "Utf8("@ + nullability_name(n) + ")"@,
        VDTypeView::Binary(n) => "Binary("@ + nullability_name(n) + ")"@,
        VDTypeView::List(e, n) => "List("@ + vdtype_debug(*e) + ", "@ + nullability_name(n) + ")"@,
        VDTypeView::FixedSizeList(e, size, n) => "FixedSizeList("@ + vdtype_debug(*e) + ", "@
            + decimal_chars(size as int) + ", "@ + nullability_name(n) + ")"@,
        VDTypeView::Struct(..) => "Struct(..)"@,
        VDTypeView::Variant(n) => "Variant("@ + nullability_name(n) + ")"@,
        VDTypeView::Extension(VExtDTypeView::Temporal(t, n)) => "Extension("@
            + temporal_metadata_debug(t) + "ExtDType { id: Id(\""@ + temporal_id(t)
            + "\"), metadata: Ok(()), storage_dtype: Primitive("@ + ptype_name(temporal_storage(t))
            + ", "@ + nullability_name(n) + ") })"@,
        VDTypeView::Extension(VExtDTypeView::Other(..)) => "Extension(..)"@,
    }
}

/// The text of an error.
pub open spec fn error_message(e: SchemaErrorView) -> Seq<char> {
    match e {
        SchemaErrorView::TopLevelNotStruct(d) => "only DType::Struct can be the top-level Vortex file schema, got "@
            + d,
        SchemaErrorView::TopLevelNullable => "top-level struct in a Vortex schema must be NonNullable"@,
        SchemaErrorView::VariantUnsupported => "Vortex Variant types are not yet supported in Polars"@,
        SchemaErrorView::NegativeDecimalScale(sc) => "Vortex decimal with negative scale "@
            + decimal_chars(sc as int) + " is not representable in polars-arrow"@,
        SchemaErrorView::InvalidDateUnit(u) => "invalid Vortex time unit "@ + time_unit_name(u)
            + " for Date extension"@,
        SchemaErrorView::DaysUnit(ctx) => "invalid Vortex time unit Days for "@ + ctx,
        SchemaErrorView::UnsupportedExtension(id) => "unsupported Vortex extension type \""@ + id + "\""@,
    }
}

fn nullability_text(n: Nullability) -> (r: String)
    ensures
        r@ == nullability_name(n),
{
    match n {
        Nullability::NonNullable => "NonNullable".to_owned(),
        Nullability::Nullable => "Nullable".to_owned(),
    }
}

fn ptype_text(p: PType) -> (r: String)
    ensures
        r@ == ptype_name(p),
{
    match p {
        PType::U8 => "U8".to_owned(),
        PType::U16 => "U16".to_owned(),
        PType::U32 => "U32".to_owned(),
        PType::U64 => "U64".to_owned(),
        PType::I8 => "I8".to_owned(),
        PType::I16 => "I16".to_owned(),
        PType::I32 => "I32".to_owned(),
        PType::I64 => "I64".to_owned(),
        PType::F16 => "F16".to_owned(),
        PType::F32 => "F32".to_owned(),
        PType::F64 => "F64".to_owned(),
    }
}

fn time_unit_text(u: VTimeUnit) -> (r: String)
    ensures
        r@ == time_unit_name(u),
{
    match u {
        VTimeUnit::Nanoseconds => "Nanoseconds".to_owned(),
        VTimeUnit::Microseconds => "Microseconds".to_owned(),
        VTimeUnit::Milliseconds => "Milliseconds".to_owned(),
        VTimeUnit::Seconds => "Seconds".to_owned(),
        VTimeUnit::Days => "Days".to_owned(),
    }
}

/// `open + inner + ")"`.
fn wrapped(open: &str, inner: String) -> (r: String)
    ensures
        r@ == open@ + inner@ + ")"@,
{
    let mut m = open.to_owned();
    m.append(inner.as_str());
    m.append(")");
    m
}

fn temporal_metadata_text(t: &TemporalMetadata) -> (r: String)
    ensures
        r@ == temporal_metadata_debug(crate::vx_model::temporal_view(*t)),
{
    match t {
        TemporalMetadata::Timestamp(u, tz) => {
            let mut m = "TimestampOptions { unit: ".to_owned();
            m.append(time_unit_text(*u).as_str());
            m.append(", tz: ");
            match tz {
                Some(z) => {
                    m.append("Some(");
                    m.append(str_debug_text(z).as_str());
                    m.append(")");
                },
                None => {
                    m.append("None");
                },
            }
            m.append(" }");
            m
        },
        TemporalMetadata::Date(u) => time_unit_text(*u),
        TemporalMetadata::Time(u) => time_unit_text(*u),
    }
}

fn temporal_id_and_storage(t: &TemporalMetadata) -> (r: (&'static str, PType))
    ensures
        r.0@ == temporal_id(crate::vx_model::temporal_view(*t)),
        r.1 == temporal_storage(crate::vx_model::temporal_view(*t)),
{
    match t {
        TemporalMetadata::Timestamp(..) => ("vortex.timestamp", PType::I64),
        TemporalMetadata::Date(u) => (
            "vortex.date",
            match u {
                VTimeUnit::Days => PType::I32,
                _ => PType::I64,
            },
        ),
        TemporalMetadata::Time(u) => (
            "vortex.time",
            match u {
                VTimeUnit::Milliseconds | VTimeUnit::Seconds => PType::I32,
                _ => PType::I64,
            },
        ),
    }
}

/// The rendering of a dtype in a top-level error (see [`vdtype_debug`]).
pub fn dtype_debug(dt: &VDType) -> (r: String)
    ensures
        r@ == vdtype_debug(dt@),
    decreases dt,
{
    match dt {
        VDType::Null => "Null".to_owned(),
        VDType::Bool(n) => wrapped("Bool(", nullability_text(*n)),
        VDType::Primitive(p, n) => {
            let mut inner = ptype_text(*p);
            inner.append(", ");
            inner.append(nullability_text(*n).as_str());
            wrapped("Primitive(", inner)
        },
        VDType::Decimal(p, sc, n) => {
            let mut m = "Decimal(DecimalDType { precision: ".to_owned();
            m.append(decimal_text(*p as i128).as_str());
            m.append(", scale: ");
            m.append(decimal_text(*sc as i128).as_str());
            m.append(" }, ");
            m.append(nullability_text(*n).as_str());
            m.append(")");
            m
        },
        VDType::Utf8(n) => wrapped("Utf8(", nullability_text(*n)),
        VDType::Binary(n) => wrapped("Binary(", nullability_text(*n)),
        VDType::List(e, n) => {
            let mut inner = dtype_debug(e);
            inner.append(", ");
            inner.append(nullability_text(*n).as_str());
            wrapped("List(", inner)
        },
        VDType::FixedSizeList(e, size, n) => {
            let mut inner = dtype_debug(e);
            inner.append(", ");
            inner.append(decimal_text(*size as i128).as_str());
            inner.append(", ");
            inner.append(nullability_text(*n).as_str());
            wrapped("FixedSizeList(", inner)
        },
        VDType::Struct(..) => "Struct(..)".to_owned(),
        VDType::Variant(n) => wrapped("Variant(", nullability_text(*n)),
        VDType::Extension(VExtDType::Temporal(t, n)) => {
            let mut m = "Extension(".to_owned();
            m.append(temporal_metadata_text(t).as_str());
            m.append("ExtDType { id: Id(\"");
            let (id, storage) = temporal_id_and_storage(t);
            m.append(id);
            m.append("\"), metadata: Ok(()), storage_dtype: Primitive(");
            m.append(ptype_text(storage).as_str());
            m.append(", ");
            m.append(nullability_text(*n).as_str());
            m.append(") })");
            m
        },
        VDType::Extension(VExtDType::Other(..)) => "Extension(..)".to_owned(),
    }
}

impl SchemaError {
    /// A human-readable description of the error.
    pub fn message(&self) -> (r: String)
        ensures
            r@ == error_message(self@),
    {
        match self {
            SchemaError::TopLevelNotStruct(d) => {
                let mut m = "only DType::Struct can be the top-level Vortex file schema, got ".to_owned();
                m.append(d.as_str());
                m
            },
            SchemaError::TopLevelNullable => "top-level struct in a Vortex schema must be NonNullable".to_owned(),
            SchemaError::VariantUnsupported => "Vortex Variant types are not yet supported in Polars".to_owned(),
            SchemaError::NegativeDecimalScale(sc) => {
                let mut m = "Vortex decimal with negative scale ".to_owned();
                m.append(decimal_text(*sc as i128).as_str());
                m.append(" is not representable in polars-arrow");
                m
            },
            SchemaError::InvalidDateUnit(u) => {
                let mut m = "invalid Vortex time unit ".to_owned();
                m.append(time_unit_text(*u).as_str());
                m.append(" for Date extension");
                m
            },
            SchemaError::DaysUnit(ctx) => {
                let mut m = "invalid Vortex time unit Days for ".to_owned();
                m.append(ctx.as_str());
                m
            },
            SchemaError::UnsupportedExtension(id) => {
                let mut m = "unsupported Vortex extension type \"".to_owned();
                m.append(id.as_str());
                m.append("\"");
                m
            },
        }
    }
}

pub open spec fn result_view(r: Result<ArrowDataType, SchemaError>) -> Result<ArrowDataTypeView, SchemaErrorView> {
    match r {
        Ok(d) => Ok(d@),
        Err(e) => Err(e@),
    }
}

/// Arrow time unit of a Vortex unit; `Days` has none.
pub open spec fn arrow_time_unit_spec(unit: VTimeUnit, context: Seq<char>) -> Result<ArrowTimeUnit, SchemaErrorView> {
    match unit {
        VTimeUnit::Seconds => Ok(ArrowTimeUnit::Second),
        VTimeUnit::Milliseconds => Ok(ArrowTimeUnit::Millisecond),
        VTimeUnit::Microseconds => Ok(ArrowTimeUnit::Microsecond),
        VTimeUnit::Nanoseconds => Ok(ArrowTimeUnit::Nanosecond),
        VTimeUnit::Days => Err(SchemaErrorView::DaysUnit(context)),
    }
}

/// The polars-arrow type of a Vortex primitive type.
pub open spec fn arrow_primitive_spec(p: PType) -> ArrowDataTypeView {
    match p {
        PType::U8 => ArrowDataTypeView::UInt8,
        PType::U16 => ArrowDataTypeView::UInt16,
        PType::U32 => ArrowDataTypeView::UInt32,
        PType::U64 => ArrowDataTypeView::UInt64,
        PType::I8 => ArrowDataTypeView::Int8,
        PType::I16 => ArrowDataTypeView::Int16,
        PType::I32 => ArrowDataTypeView::Int32,
        PType::I64 => ArrowDataTypeView::Int64,
        PType::F16 => ArrowDataTypeView::Float16,
        PType::F32 => ArrowDataTypeView::Float32,
        PType::F64 => ArrowDataTypeView::Float64,
    }
}

/// The polars-arrow type of a temporal extension.
pub open spec fn arrow_temporal_spec(t: TemporalMetadataView) -> Result<ArrowDataTypeView, SchemaErrorView> {
    match t {
        TemporalMetadataView::Timestamp(u, tz) => match arrow_time_unit_spec(u, "Timestamp"@) {
            Ok(au) => Ok(ArrowDataTypeView::Timestamp(au, tz)),
            Err(e) => Err(e),
        },
        TemporalMetadataView::Date(u) => match u {
            VTimeUnit::Days => Ok(ArrowDataTypeView::Date32),
            VTimeUnit::Milliseconds => Ok(ArrowDataTypeView::Date64),
            _ => Err(SchemaErrorView::InvalidDateUnit(u)),
        },
        TemporalMetadataView::Time(u) => match u {
            VTimeUnit::Seconds => Ok(ArrowDataTypeView::Time32(ArrowTimeUnit::Second)),
            VTimeUnit::Milliseconds => Ok(ArrowDataTypeView::Time32(ArrowTimeUnit::Millisecond)),
            VTimeUnit::Microseconds => Ok(ArrowDataTypeView::Time64(ArrowTimeUnit::Microsecond)),
            VTimeUnit::Nanoseconds => Ok(ArrowDataTypeView::Time64(ArrowTimeUnit::Nanosecond)),
            VTimeUnit::Days => Err(SchemaErrorView::DaysUnit("Time extension"@)),
        },
    }
}

/// The element field of a list: named `item`, nullable as the element dtype is.
pub open spec fn item_field(elem: VDTypeView, dt: ArrowDataTypeView) -> ArrowFieldView {
    ArrowFieldView { name: "item"@, dtype: dt, is_nullable: vdtype_nullable(elem) }
}

/// The polars-arrow type of a Vortex dtype, or the error for the first part of it that has none.
pub open spec fn arrow_dtype_spec(d: VDTypeView) -> Result<ArrowDataTypeView, SchemaErrorView>
    decreases d, 0int,
{
    match d {
        VDTypeView::Null => Ok(ArrowDataTypeView::Null),
        VDTypeView::Bool(_) => Ok(ArrowDataTypeView::Boolean),
        VDTypeView::Primitive(p, _) => Ok(arrow_primitive_spec(p)),
        VDTypeView::Decimal(p, s, _) => if s < 0 {
            Err(SchemaErrorView::NegativeDecimalScale(s))
        } else if p <= 38 {
            Ok(ArrowDataTypeView::Decimal(p as usize, s as usize))
        } else {
            Ok(ArrowDataTypeView::Decimal256(p as usize, s as usize))
        },
        VDTypeView::Utf8(_) => Ok(ArrowDataTypeView::Utf8View),
        VDTypeView::Binary(_) => Ok(ArrowDataTypeView::BinaryView),
        VDTypeView::List(e, _) => match arrow_dtype_spec(*e) {
            Ok(dt) => Ok(ArrowDataTypeView::List(Box::new(item_field(*e, dt)))),
            Err(err) => Err(err),
        },
        VDTypeView::FixedSizeList(e, k, _) => match arrow_dtype_spec(*e) {
            Ok(dt) => Ok(ArrowDataTypeView::FixedSizeList(Box::new(item_field(*e, dt)), k as usize)),
            Err(err) => Err(err),
        },
        VDTypeView::Struct(fs, _) => match struct_fields_spec(fs, 0, Seq::empty()) {
            Ok(out) => Ok(ArrowDataTypeView::Struct(out)),
            Err(err) => Err(err),
        },
        VDTypeView::Variant(_) => Err(SchemaErrorView::VariantUnsupported),
        VDTypeView::Extension(VExtDTypeView::Temporal(t, _)) => arrow_temporal_spec(t),
        VDTypeView::Extension(VExtDTypeView::Other(id, _)) => Err(
            SchemaErrorView::UnsupportedExtension(id),
        ),
    }
}

/// Translate the struct fields from index `k` on, appending them to `acc`; the first field
/// that does not translate gives the error.
pub open spec fn struct_fields_spec(
    fs: Seq<(Seq<char>, VDTypeView)>,
    k: int,
    acc: Seq<ArrowFieldView>,
) -> Result<Seq<ArrowFieldView>, SchemaErrorView>
    decreases fs, fs.len() - k,
{
    if k < 0 || k >= fs.len() {
        Ok(acc)
    } else {
        match arrow_dtype_spec(fs[k].1) {
            Ok(dt) => struct_fields_spec(
                fs,
                k + 1,
                acc.push(ArrowFieldView { name: fs[k].0, dtype: dt, is_nullable: vdtype_nullable(fs[k].1) }),
            ),
            Err(err) => Err(err),
        }
    }
}

/// Index of the first field named `name`.
pub open spec fn arrow_field_index_from(s: Seq<ArrowFieldView>, name: Seq<char>, k: int) -> Option<int>
    decreases s.len() - k,
{
    if k < 0 || k >= s.len() {
        None
    } else if s[k].name == name {
        Some(k)
    } else {
        arrow_field_index_from(s, name, k + 1)
    }
}

/// Insert a field into a schema: a field of the same name is replaced in place, otherwise the
/// field is appended (`IndexMap::insert`).
pub open spec fn schema_insert(s: Seq<ArrowFieldView>, f: ArrowFieldView) -> Seq<ArrowFieldView> {
    match arrow_field_index_from(s, f.name, 0) {
        Some(i) => s.update(i, f),
        None => s.push(f),
    }
}

/// Insert the translated fields from index `k` on into `acc`.
pub open spec fn schema_fields_spec(
    fs: Seq<(Seq<char>, VDTypeView)>,
    k: int,
    acc: Seq<ArrowFieldView>,
) -> Result<Seq<ArrowFieldView>, SchemaErrorView>
    decreases fs.len() - k,
{
    if k < 0 || k >= fs.len() {
        Ok(acc)
    } else {
        match arrow_dtype_spec(fs[k].1) {
            Ok(dt) => schema_fields_spec(
                fs,
                k + 1,
                schema_insert(
                    acc,
                    ArrowFieldView { name: fs[k].0, dtype: dt, is_nullable: vdtype_nullable(fs[k].1) },
                ),
            ),
            Err(err) => Err(err),
        }
    }
}

/// The polars-arrow schema of a Vortex file's top-level dtype, which must be a non-nullable
/// struct.
pub open spec fn schema_spec(d: VDTypeView) -> Result<Seq<ArrowFieldView>, SchemaErrorView> {
    match d {
        VDTypeView::Struct(fs, n) => if n != Nullability::NonNullable {
            Err(SchemaErrorView::TopLevelNullable)
        } else {
            schema_fields_spec(fs, 0, Seq::empty())
        },
        _ => Err(SchemaErrorView::TopLevelNotStruct(vdtype_debug(d))),
    }
}

pub proof fn lemma_struct_view(fs: Vec<VStructField>, n: Nullability, i: int)
    requires
        0 <= i < fs@.len(),
    ensures
        (VDType::Struct(fs, n))@ matches VDTypeView::Struct(vs, m) && m == n && vs.len()
            == fs@.len() && vs[i] == (fs@[i].name@, fs@[i].dtype@),
{
}

/// Translate a Vortex time unit into an Arrow time unit; `Days` is an error naming `context`.
pub fn vortex_time_unit_to_arrow(unit: VTimeUnit, context: &str) -> (r: Result<ArrowTimeUnit, SchemaError>)
    ensures
        r matches Ok(u) ==> arrow_time_unit_spec(unit, context@) == Ok::<ArrowTimeUnit, SchemaErrorView>(u),
        r matches Err(e) ==> arrow_time_unit_spec(unit, context@) == Err::<ArrowTimeUnit, SchemaErrorView>(e@),
{
    match unit {
        VTimeUnit::Seconds => Ok(ArrowTimeUnit::Second),
        VTimeUnit::Milliseconds => Ok(ArrowTimeUnit::Millisecond),
        VTimeUnit::Microseconds => Ok(ArrowTimeUnit::Microsecond),
        VTimeUnit::Nanoseconds => Ok(ArrowTimeUnit::Nanosecond),
        VTimeUnit::Days => Err(SchemaError::DaysUnit(context.to_owned())),
    }
}

fn opt_string_copy(s: &Option<String>) -> (r: Option<String>)
    ensures
        r == *s,
{
    match s {
        Some(t) => Some(t.clone()),
        None => None,
    }
}

fn temporal_to_arrow(t: &TemporalMetadata) -> (r: Result<ArrowDataType, SchemaError>)
    ensures
        result_view(r) == arrow_temporal_spec(crate::vx_model::temporal_view(*t)),
{
    match t {
        TemporalMetadata::Timestamp(u, tz) => {
            proof {
                reveal_strlit("Timestamp");
            }
            match vortex_time_unit_to_arrow(*u, "Timestamp") {
                Ok(au) => Ok(ArrowDataType::Timestamp(au, opt_string_copy(tz))),
                Err(e) => Err(e),
            }
        },
        TemporalMetadata::Date(u) => match u {
            VTimeUnit::Days => Ok(ArrowDataType::Date32),
            VTimeUnit::Milliseconds => Ok(ArrowDataType::Date64),
            _ => Err(SchemaError::InvalidDateUnit(*u)),
        },
        TemporalMetadata::Time(u) => match u {
            VTimeUnit::Seconds => Ok(ArrowDataType::Time32(ArrowTimeUnit::Second)),
            VTimeUnit::Milliseconds => Ok(ArrowDataType::Time32(ArrowTimeUnit::Millisecond)),
            VTimeUnit::Microseconds => Ok(ArrowDataType::Time64(ArrowTimeUnit::Microsecond)),
            VTimeUnit::Nanoseconds => Ok(ArrowDataType::Time64(ArrowTimeUnit::Nanosecond)),
            VTimeUnit::Days => {
                Err(SchemaError::DaysUnit("Time extension".to_owned()))
            },
        },
    }
}

/// Recursively translate a Vortex dtype into a polars-arrow dtype.
pub fn vortex_dtype_to_arrow_dtype(dt: &VDType) -> (r: Result<ArrowDataType, SchemaError>)
    ensures
        result_view(r) == arrow_dtype_spec(dt@),
    decreases dt,
{
    match dt {
        VDType::Null => Ok(ArrowDataType::Null),
        VDType::Bool(_) => Ok(ArrowDataType::Boolean),
        VDType::Primitive(p, _) => Ok(
            match p {
                PType::U8 => ArrowDataType::UInt8,
                PType::U16 => ArrowDataType::UInt16,
                PType::U32 => ArrowDataType::UInt32,
                PType::U64 => ArrowDataType::UInt64,
                PType::I8 => ArrowDataType::Int8,
                PType::I16 => ArrowDataType::Int16,
                PType::I32 => ArrowDataType::Int32,
                PType::I64 => ArrowDataType::Int64,
                PType::F16 => ArrowDataType::Float16,
                PType::F32 => ArrowDataType::Float32,
                PType::F64 => ArrowDataType::Float64,
            },
        ),
        VDType::Decimal(p, s, _) => {
            if *s < 0 {
                return Err(SchemaError::NegativeDecimalScale(*s));
            }
            let precision = *p as usize;
            let scale = *s as usize;
            if precision <= 38 {
                Ok(ArrowDataType::Decimal(precision, scale))
            } else {
                Ok(ArrowDataType::Decimal256(precision, scale))
            }
        },
        VDType::Utf8(_) => Ok(ArrowDataType::Utf8View),
        VDType::Binary(_) => Ok(ArrowDataType::BinaryView),
        VDType::List(e, _) => {
            let inner = vortex_dtype_to_arrow_dtype(e);
            match inner {
                Ok(d) => {
                    proof {
                        reveal_strlit("item");
                    }
                    let f = ArrowField { name: "item".to_owned(), dtype: d, is_nullable: e.is_nullable() };
                    Ok(ArrowDataType::List(Box::new(f)))
                },
                Err(err) => Err(err),
            }
        },
        VDType::FixedSizeList(e, k, _) => {
            let inner = vortex_dtype_to_arrow_dtype(e);
            match inner {
                Ok(d) => {
                    proof {
                        reveal_strlit("item");
                    }
                    let f = ArrowField { name: "item".to_owned(), dtype: d, is_nullable: e.is_nullable() };
                    Ok(ArrowDataType::FixedSizeList(Box::new(f), *k as usize))
                },
                Err(err) => Err(err),
            }
        },
        VDType::Struct(fs, n) => {
            let ghost vs = dt@->Struct_0;
            let mut out: Vec<ArrowField> = Vec::new();
            proof {
                lemma_arrow_fields_view(out);
                assert(arrow_fields_view(out) =~= Seq::<ArrowFieldView>::empty());
            }
            let mut i: usize = 0;
            while i < fs.len()
                invariant
                    i <= fs@.len(),
                    *dt == VDType::Struct(*fs, *n),
                    vs == dt@->Struct_0,
                    vs.len() == fs@.len(),
                    struct_fields_spec(vs, 0, Seq::empty()) == struct_fields_spec(
                        vs,
                        i as int,
                        arrow_fields_view(out),
                    ),
                decreases fs@.len() - i,
            {
                proof {
                    broadcast use vstd::std_specs::vec::axiom_vec_decreases_to_view;
                    broadcast use vstd::seq::axiom_seq_index_decreases;
                    assert(decreases_to!(*dt => (*dt)->Struct_0));
                    assert(decreases_to!(*fs => fs@));
                    assert(decreases_to!(fs@ => fs@[i as int]));
                    assert(decreases_to!(fs@[i as int] => fs@[i as int].dtype));
                    lemma_struct_view(*fs, *n, i as int);
                    lemma_arrow_fields_view(out);
                }
                let conv = vortex_dtype_to_arrow_dtype(&fs[i].dtype);
                match conv {
                    Ok(d) => {
                        let ghost old_out = out;
                        let f = ArrowField { name: fs[i].name.clone(), dtype: d, is_nullable: fs[i].dtype.is_nullable() };
                        out.push(f);
                        proof {
                            lemma_arrow_fields_view(out);
                            lemma_arrow_fields_view(old_out);
                            assert(arrow_fields_view(out) =~= arrow_fields_view(old_out).push(
                                ArrowFieldView {
                                    name: vs[i as int].0,
                                    dtype: d@,
                                    is_nullable: vdtype_nullable(vs[i as int].1),
                                },
                            ));
                        }
                    },
                    Err(err) => {
                        return Err(err);
                    },
                }
                i = i + 1;
            }
            Ok(ArrowDataType::Struct(out))
        },
        VDType::Variant(_) => Err(SchemaError::VariantUnsupported),
        VDType::Extension(VExtDType::Temporal(t, _)) => temporal_to_arrow(t),
        VDType::Extension(VExtDType::Other(id, _)) => Err(SchemaError::UnsupportedExtension(id.clone())),
    }
}

impl ArrowSchema {
    /// Index of the first field named `name`.
    pub fn index_of(&self, name: &String) -> (r: Option<usize>)
        ensures
            r matches Some(i) ==> arrow_field_index_from(self@, name@, 0) == Some(i as int) && i
                < self@.len(),
            r is None ==> arrow_field_index_from(self@, name@, 0) is None,
    {
        let mut i: usize = 0;
        proof {
            lemma_arrow_fields_view(self.fields);
        }
        while i < self.fields.len()
            invariant
                i <= self.fields@.len(),
                self@.len() == self.fields@.len(),
                arrow_field_index_from(self@, name@, 0) == arrow_field_index_from(self@, name@, i as int),
            decreases self.fields@.len() - i,
        {
            proof {
                lemma_arrow_fields_view(self.fields);
            }
            if self.fields[i].name == *name {
                return Some(i);
            }
            i = i + 1;
        }
        None
    }

    /// Insert a field keyed by its name: a field with the same name is replaced in place,
    /// otherwise the field is appended.
    pub fn insert(&mut self, field: ArrowField)
        ensures
            final(self)@ == schema_insert(old(self)@, field@),
    {
        let ghost old_fields = self.fields;
        proof {
            lemma_arrow_fields_view(old_fields);
        }
        match self.index_of(&field.name) {
            Some(i) => {
                let ghost fv = field@;
                self.fields.set(i, field);
                proof {
                    lemma_arrow_fields_view(self.fields);
                    assert(self@ =~= arrow_fields_view(old_fields).update(i as int, fv));
                }
            },
            None => {
                let ghost fv = field@;
                self.fields.push(field);
                proof {
                    lemma_arrow_fields_view(self.fields);
                    assert(self@ =~= arrow_fields_view(old_fields).push(fv));
                }
            },
        }
    }
}

/// No two fields share a name.
pub open spec fn names_distinct(s: Seq<ArrowFieldView>) -> bool {
    forall|i: int, j: int| 0 <= i < j < s.len() ==> #[trigger] s[i].name != #[trigger] s[j].name
}

proof fn lemma_field_index_from(s: Seq<ArrowFieldView>, name: Seq<char>, k: int)
    requires
        0 <= k,
    ensures
        arrow_field_index_from(s, name, k) matches Some(i) ==> k <= i < s.len() && s[i].name == name,
        arrow_field_index_from(s, name, k) is None ==> forall|i: int|
            k <= i < s.len() ==> #[trigger] s[i].name != name,
    decreases s.len() - k,
{
    if k < s.len() && s[k].name != name {
        lemma_field_index_from(s, name, k + 1);
    }
}

/// Inserting a field keeps the names of a schema distinct.
proof fn lemma_schema_insert_distinct(s: Seq<ArrowFieldView>, f: ArrowFieldView)
    requires
        names_distinct(s),
    ensures
        names_distinct(schema_insert(s, f)),
{
    lemma_field_index_from(s, f.name, 0);
}

proof fn lemma_schema_fields_distinct(fs: Seq<(Seq<char>, VDTypeView)>, k: int, acc: Seq<ArrowFieldView>)
    requires
        0 <= k,
        names_distinct(acc),
    ensures
        schema_fields_spec(fs, k, acc) matches Ok(out) ==> names_distinct(out),
    decreases fs.len() - k,
{
    if k < fs.len() {
        if let Ok(dt) = arrow_dtype_spec(fs[k].1) {
            let f = ArrowFieldView { name: fs[k].0, dtype: dt, is_nullable: vdtype_nullable(fs[k].1) };
            lemma_schema_insert_distinct(acc, f);
            lemma_schema_fields_distinct(fs, k + 1, schema_insert(acc, f));
        }
    }
}

/// A file's schema names each column once, even when the file's struct repeats a field name.
pub proof fn lemma_schema_names_distinct(d: VDTypeView)
    ensures
        schema_spec(d) matches Ok(fields) ==> names_distinct(fields),
{
    if let VDTypeView::Struct(fs, n) = d {
        lemma_schema_fields_distinct(fs, 0, Seq::empty());
    }
}

/// A file's schema exists only for a non-nullable struct dtype.
pub proof fn lemma_schema_needs_non_nullable_struct(d: VDTypeView)
    ensures
        schema_spec(d) is Ok ==> (d matches VDTypeView::Struct(_, n) && n == Nullability::NonNullable),
        !(d is Struct) ==> schema_spec(d) == Err::<Seq<ArrowFieldView>, SchemaErrorView>(
            SchemaErrorView::TopLevelNotStruct(vdtype_debug(d)),
        ),
{
}

/// The struct's field names are distinct.
pub open spec fn struct_names_distinct(fs: Seq<(Seq<char>, VDTypeView)>) -> bool {
    forall|i: int, j: int| 0 <= i < j < fs.len() ==> #[trigger] fs[i].0 != #[trigger] fs[j].0
}

/// Every field's dtype has a polars-arrow counterpart.
pub open spec fn struct_fields_translate(fs: Seq<(Seq<char>, VDTypeView)>) -> bool {
    forall|i: int| 0 <= i < fs.len() ==> (#[trigger] arrow_dtype_spec(fs[i].1)) is Ok
}

/// The polars-arrow fields of a struct's fields, one for one and in order.
pub open spec fn fields_in_order(fs: Seq<(Seq<char>, VDTypeView)>) -> Seq<ArrowFieldView> {
    Seq::new(
        fs.len(),
        |i: int|
            ArrowFieldView {
                name: fs[i].0,
                dtype: arrow_dtype_spec(fs[i].1)->Ok_0,
                is_nullable: vdtype_nullable(fs[i].1),
            },
    )
}

proof fn lemma_schema_fields_in_order(fs: Seq<(Seq<char>, VDTypeView)>, k: int)
    requires
        0 <= k <= fs.len(),
        struct_names_distinct(fs),
        struct_fields_translate(fs),
    ensures
        schema_fields_spec(fs, k, fields_in_order(fs).take(k)) == Ok::<
            Seq<ArrowFieldView>,
            SchemaErrorView,
        >(fields_in_order(fs)),
    decreases fs.len() - k,
{
    let all = fields_in_order(fs);
    if k == fs.len() {
        assert(all.take(k) =~= all);
    } else {
        let acc = all.take(k);
        assert(arrow_dtype_spec(fs[k].1) is Ok);
        lemma_field_index_from(acc, fs[k].0, 0);
        if arrow_field_index_from(acc, fs[k].0, 0) is Some {
            let i = arrow_field_index_from(acc, fs[k].0, 0)->Some_0;
            assert(acc[i].name == fs[i].0);
        }
        assert(schema_insert(acc, all[k]) =~= all.take(k + 1));
        lemma_schema_fields_in_order(fs, k + 1);
    }
}

proof fn lemma_struct_fields_in_order(fs: Seq<(Seq<char>, VDTypeView)>, k: int)
    requires
        0 <= k <= fs.len(),
        struct_fields_translate(fs),
    ensures
        struct_fields_spec(fs, k, fields_in_order(fs).take(k)) == Ok::<
            Seq<ArrowFieldView>,
            SchemaErrorView,
        >(fields_in_order(fs)),
    decreases fs.len() - k,
{
    let all = fields_in_order(fs);
    if k == fs.len() {
        assert(all.take(k) =~= all);
    } else {
        assert(arrow_dtype_spec(fs[k].1) is Ok);
        assert(all.take(k).push(all[k]) =~= all.take(k + 1));
        lemma_struct_fields_in_order(fs, k + 1);
    }
}

/// A struct column whose field dtypes all translate becomes an Arrow struct of its fields, one
/// for one and in order: field `i` keeps the name of the Vortex field `i`, takes its translated
/// dtype, and is nullable exactly when that field's dtype is nullable (whatever the nullability
/// of the struct itself).
pub proof fn lemma_nested_struct_is_fields_in_order(fs: Seq<(Seq<char>, VDTypeView)>, n: Nullability)
    requires
        struct_fields_translate(fs),
    ensures
        arrow_dtype_spec(VDTypeView::Struct(fs, n)) == Ok::<ArrowDataTypeView, SchemaErrorView>(
            ArrowDataTypeView::Struct(fields_in_order(fs)),
        ),
        forall|i: int|
            0 <= i < fs.len() ==> (#[trigger] fields_in_order(fs)[i]).is_nullable == (
            fs[i].1 matches VDTypeView::Null || nullability_of(fs[i].1) == Nullability::Nullable),
{
    assert(fields_in_order(fs).take(0) =~= Seq::<ArrowFieldView>::empty());
    lemma_struct_fields_in_order(fs, 0);
}

/// The nullability a dtype carries (the `Null` dtype carries none and is always nullable).
pub open spec fn nullability_of(d: VDTypeView) -> Nullability {
    match d {
        VDTypeView::Null => Nullability::Nullable,
        VDTypeView::Bool(n) => n,
        VDTypeView::Primitive(_, n) => n,
        VDTypeView::Decimal(_, _, n) => n,
        VDTypeView::Utf8(n) => n,
        VDTypeView::Binary(n) => n,
        VDTypeView::List(_, n) => n,
        VDTypeView::FixedSizeList(_, _, n) => n,
        VDTypeView::Struct(_, n) => n,
        VDTypeView::Variant(n) => n,
        VDTypeView::Extension(VExtDTypeView::Temporal(_, n)) => n,
        VDTypeView::Extension(VExtDTypeView::Other(_, n)) => n,
    }
}

/// For a non-nullable struct with distinct field names whose dtypes all translate, the schema is
/// its fields in declaration order, each with its translated dtype and its own nullability.
pub proof fn lemma_schema_is_fields_in_order(fs: Seq<(Seq<char>, VDTypeView)>)
    requires
        struct_names_distinct(fs),
        struct_fields_translate(fs),
    ensures
        schema_spec(VDTypeView::Struct(fs, Nullability::NonNullable)) == Ok::<
            Seq<ArrowFieldView>,
            SchemaErrorView,
        >(fields_in_order(fs)),
{
    assert(fields_in_order(fs).take(0) =~= Seq::<ArrowFieldView>::empty());
    lemma_schema_fields_in_order(fs, 0);
}

/// Translate the top-level dtype of a Vortex file (a non-nullable struct) into the polars-arrow
/// schema of its columns, in order.
pub fn vortex_dtype_to_schema(dt: &VDType) -> (r: Result<ArrowSchema, SchemaError>)
    ensures
        r matches Ok(s) ==> schema_spec(dt@) == Ok::<Seq<ArrowFieldView>, SchemaErrorView>(s@),
        r matches Err(e) ==> schema_spec(dt@) == Err::<Seq<ArrowFieldView>, SchemaErrorView>(e@),
{
    let (fs, n) = match dt {
        VDType::Struct(fs, n) => (fs, n),
        _ => return Err(SchemaError::TopLevelNotStruct(dtype_debug(dt))),
    };
    match n {
        Nullability::NonNullable => {},
        Nullability::Nullable => return Err(SchemaError::TopLevelNullable),
    }
    let ghost vs = dt@->Struct_0;
    let mut schema = ArrowSchema { fields: Vec::new() };
    proof {
        lemma_arrow_fields_view(schema.fields);
        assert(schema@ =~= Seq::<ArrowFieldView>::empty());
    }
    let mut i: usize = 0;
    while i < fs.len()
        invariant
            i <= fs@.len(),
            *dt == VDType::Struct(*fs, *n),
            vs == dt@->Struct_0,
            vs.len() == fs@.len(),
            schema_spec(dt@) == schema_fields_spec(vs, i as int, schema@),
        decreases fs@.len() - i,
    {
        proof {
            lemma_struct_view(*fs, *n, i as int);
        }
        let conv = vortex_dtype_to_arrow_dtype(&fs[i].dtype);
        match conv {
            Ok(d) => {
                let f = ArrowField { name: fs[i].name.clone(), dtype: d, is_nullable: fs[i].dtype.is_nullable() };
                schema.insert(f);
            },
            Err(err) => {
                return Err(err);
            },
        }
        i = i + 1;
    }
    Ok(schema)
}

/// Each column's polars-arrow dtype, in schema order.
pub fn arrow_dtypes_from_schema(schema: &ArrowSchema) -> (r: Vec<ArrowDataType>)
    ensures
        r@.len() == schema@.len(),
        forall|i: int| 0 <= i < r@.len() ==> #[trigger] r@[i]@ == schema@[i].dtype,
{
    let mut out: Vec<ArrowDataType> = Vec::new();
    let mut i: usize = 0;
    proof {
        lemma_arrow_fields_view(schema.fields);
    }
    while i < schema.fields.len()
        invariant
            i <= schema.fields@.len(),
            schema@.len() == schema.fields@.len(),
            forall|j: int| 0 <= j < schema@.len() ==> #[trigger] schema@[j] == schema.fields@[j]@,
            out@.len() == i,
            forall|j: int| 0 <= j < i ==> #[trigger] out@[j]@ == schema@[j].dtype,
        decreases schema.fields@.len() - i,
    {
        out.push(schema.fields[i].dtype.duplicate());
        i = i + 1;
    }
    out
}

impl ArrowDataType {
    /// A copy of this dtype (equal view).
    pub fn duplicate(&self) -> (r: ArrowDataType)
        ensures
            r@ == self@,
        decreases self,
    {
        match self {
            ArrowDataType::Null => ArrowDataType::Null,
            ArrowDataType::Boolean => ArrowDataType::Boolean,
            ArrowDataType::Int8 => ArrowDataType::Int8,
            ArrowDataType::Int16 => ArrowDataType::Int16,
            ArrowDataType::Int32 => ArrowDataType::Int32,
            ArrowDataType::Int64 => ArrowDataType::Int64,
            ArrowDataType::UInt8 => ArrowDataType::UInt8,
            ArrowDataType::UInt16 => ArrowDataType::UInt16,
            ArrowDataType::UInt32 => ArrowDataType::UInt32,
            ArrowDataType::UInt64 => ArrowDataType::UInt64,
            ArrowDataType::Float16 => ArrowDataType::Float16,
            ArrowDataType::Float32 => ArrowDataType::Float32,
            ArrowDataType::Float64 => ArrowDataType::Float64,
            ArrowDataType::Decimal(p, s) => ArrowDataType::Decimal(*p, *s),
            ArrowDataType::Decimal256(p, s) => ArrowDataType::Decimal256(*p, *s),
            ArrowDataType::Utf8View => ArrowDataType::Utf8View,
            ArrowDataType::BinaryView => ArrowDataType::BinaryView,
            ArrowDataType::List(f) => ArrowDataType::List(
                Box::new(ArrowField { name: f.name.clone(), dtype: f.dtype.duplicate(), is_nullable: f.is_nullable }),
            ),
            ArrowDataType::FixedSizeList(f, k) => ArrowDataType::FixedSizeList(
                Box::new(ArrowField { name: f.name.clone(), dtype: f.dtype.duplicate(), is_nullable: f.is_nullable }),
                *k,
            ),
            ArrowDataType::Struct(fs) => {
                let mut out: Vec<ArrowField> = Vec::new();
                let mut i: usize = 0;
                while i < fs.len()
                    invariant
                        i <= fs@.len(),
                        *self == ArrowDataType::Struct(*fs),
                        out@.len() == i,
                        forall|j: int| 0 <= j < i ==> #[trigger] out@[j]@ == fs@[j]@,
                    decreases fs@.len() - i,
                {
                    proof {
                        broadcast use vstd::std_specs::vec::axiom_vec_decreases_to_view;
                        broadcast use vstd::seq::axiom_seq_index_decreases;
                        assert(decreases_to!(*self => (*self)->Struct_0));
                        assert(decreases_to!(*fs => fs@));
                        assert(decreases_to!(fs@ => fs@[i as int]));
                        assert(decreases_to!(fs@[i as int] => fs@[i as int].dtype));
                    }
                    out.push(ArrowField { name: fs[i].name.clone(), dtype: fs[i].dtype.duplicate(), is_nullable: fs[i].is_nullable });
                    i = i + 1;
                }
                let ghost ov = out@;
                let r = ArrowDataType::Struct(out);
                proof {
                    lemma_arrow_fields_view(*fs);
                    lemma_arrow_fields_view(ov_vec(ov, r));
                    assert(r@->Struct_0 =~= self@->Struct_0) by {
                        assert forall|j: int| 0 <= j < fs@.len() implies r@->Struct_0[j] == self@->Struct_0[j] by {
                            assert(ov[j]@ == fs@[j]@);
                        }
                    }
                }
                r
            },
            ArrowDataType::Timestamp(u, tz) => ArrowDataType::Timestamp(*u, opt_string_copy(tz)),
            ArrowDataType::Date32 => ArrowDataType::Date32,
            ArrowDataType::Date64 => ArrowDataType::Date64,
            ArrowDataType::Time32(u) => ArrowDataType::Time32(*u),
            ArrowDataType::Time64(u) => ArrowDataType::Time64(*u),
        }
    }
}

pub open spec fn ov_vec(ov: Seq<ArrowField>, r: ArrowDataType) -> Vec<ArrowField> {
    r->Struct_0
}

} // verus!
