//! Polars-side data types: the part of `polars_core`'s `DataType` / `Schema` that the Vortex
//! bridge reasons about, held as plain values.
use vstd::prelude::*;

verus! {

/// Time unit of a Polars `Datetime` / `Duration` column.
#[derive(Clone, Copy, Debug, PartialEq, Eq, Structural)]
pub enum TimeUnit {
    Nanoseconds,
    Microseconds,
    Milliseconds,
}

/// A Polars data type.
#[derive(Debug, PartialEq)]
pub enum DataType {
    Boolean,
    UInt8,
    UInt16,
    UInt32,
    UInt64,
    UInt128,
    Int8,
    Int16,
    Int32,
    Int64,
    Int128,
    Float32,
    Float64,
    String,
    Binary,
    Date,
    Datetime(TimeUnit, Option<String>),
    Duration(TimeUnit),
    Time,
    Decimal(usize, usize),
    List(Box<DataType>),
    Array(Box<DataType>, usize),
    Struct(Vec<Field>),
    Null,
    Unknown,
}

/// A named Polars field (also the element type of `DataType::Struct`).
#[derive(Debug, PartialEq)]
pub struct Field {
    pub name: String,
    pub dtype: DataType,
}

/// Mathematical value of a [`DataType`]: names become character sequences and field lists
/// become sequences, so that two data types are equal exactly when their views are.
pub enum DataTypeView {
    Boolean,
    UInt8,
    UInt16,
    UInt32,
    UInt64,
    UInt128,
    Int8,
    Int16,
    Int32,
    Int64,
    Int128,
    Float32,
    Float64,
    String,
    Binary,
    Date,
    Datetime(TimeUnit, Option<Seq<char>>),
    Duration(TimeUnit),
    Time,
    Decimal(usize, usize),
    List(Box<DataTypeView>),
    Array(Box<DataTypeView>, usize),
    Struct(Seq<FieldView>),
    Null,
    Unknown,
}

/// Mathematical value of a [`Field`].
pub struct FieldView {
    pub name: Seq<char>,
    pub dtype: DataTypeView,
}

pub open spec fn opt_str_view(s: Option<String>) -> Option<Seq<char>> {
    match s {
        Some(s) => Some(s@),
        None => None,
    }
}

pub open spec fn dtype_view(d: DataType) -> DataTypeView
    decreases d,
{
    match d {
        DataType::Boolean => DataTypeView::Boolean,
        DataType::UInt8 => DataTypeView::UInt8,
        DataType::UInt16 => DataTypeView::UInt16,
        DataType::UInt32 => DataTypeView::UInt32,
        DataType::UInt64 => DataTypeView::UInt64,
        DataType::UInt128 => DataTypeView::UInt128,
        DataType::Int8 => DataTypeView::Int8,
        DataType::Int16 => DataTypeView::Int16,
        DataType::Int32 => DataTypeView::Int32,
        DataType::Int64 => DataTypeView::Int64,
        DataType::Int128 => DataTypeView::Int128,
        DataType::Float32 => DataTypeView::Float32,
        DataType::Float64 => DataTypeView::Float64,
        DataType::String => DataTypeView::String,
        DataType::Binary => DataTypeView::Binary,
        DataType::Date => DataTypeView::Date,
        DataType::Datetime(u, tz) => DataTypeView::Datetime(u, opt_str_view(tz)),
        DataType::Duration(u) => DataTypeView::Duration(u),
        DataType::Time => DataTypeView::Time,
        DataType::Decimal(p, s) => DataTypeView::Decimal(p, s),
        DataType::List(inner) => DataTypeView::List(Box::new(dtype_view(*inner))),
        DataType::Array(inner, n) => DataTypeView::Array(Box::new(dtype_view(*inner)), n),
        DataType::Struct(fs) => DataTypeView::Struct(
            Seq::new(
                fs@.len(),
                |i: int|
                    FieldView {
                        name: fs@[i].name@,
                        dtype: if 0 <= i < fs@.len() {
                            dtype_view(fs@[i].dtype)
                        } else {
                            DataTypeView::Null
                        },
                    },
            ),
        ),
        DataType::Null => DataTypeView::Null,
        DataType::Unknown => DataTypeView::Unknown,
    }
}

impl View for DataType {
    type V = DataTypeView;

    open spec fn view(&self) -> DataTypeView {
        dtype_view(*self)
    }
}

impl View for Field {
    type V = FieldView;

    open spec fn view(&self) -> FieldView {
        FieldView { name: self.name@, dtype: self.dtype@ }
    }
}

/// The numeric dtypes that Vortex's `checked_add` and primitive casts accept.
pub open spec fn is_numeric_view(d: DataTypeView) -> bool {
    match d {
        DataTypeView::Int8 | DataTypeView::Int16 | DataTypeView::Int32 | DataTypeView::Int64
        | DataTypeView::UInt8 | DataTypeView::UInt16 | DataTypeView::UInt32
        | DataTypeView::UInt64 | DataTypeView::Float32 | DataTypeView::Float64 => true,
        _ => false,
    }
}

/// Source/target pairs that a same-kind Vortex cast supports.
pub open spec fn cast_kind_compatible_view(source: DataTypeView, target: DataTypeView) -> bool {
    ||| (source is Boolean && target is Boolean)
    ||| (source is String && target is String)
    ||| (is_numeric_view(source) && is_numeric_view(target))
}

/// Does a struct dtype have a field with this name?
pub open spec fn struct_field_exists_view(d: DataTypeView, name: Seq<char>) -> bool {
    match d {
        DataTypeView::Struct(fs) => exists|i: int| 0 <= i < fs.len() && #[trigger] fs[i].name == name,
        _ => false,
    }
}

/// Index of the first field called `name` in `fs`, looking from `start` on.
pub open spec fn field_index_from(fs: Seq<FieldView>, name: Seq<char>, start: int) -> Option<int>
    decreases fs.len() - start,
{
    if start < 0 || start >= fs.len() {
        None
    } else if fs[start].name == name {
        Some(start)
    } else {
        field_index_from(fs, name, start + 1)
    }
}

/// Index of the first field called `name`.
pub open spec fn field_index(fs: Seq<FieldView>, name: Seq<char>) -> Option<int> {
    field_index_from(fs, name, 0)
}

/// The dtype of the first field called `name`.
pub open spec fn field_lookup(fs: Seq<FieldView>, name: Seq<char>) -> Option<DataTypeView> {
    match field_index(fs, name) {
        Some(i) => Some(fs[i].dtype),
        None => None,
    }
}

/// The dtype of field `name` inside a struct dtype (`None` for other dtypes or a missing field).
pub open spec fn struct_field_dtype_view(d: DataTypeView, name: Seq<char>) -> Option<DataTypeView> {
    match d {
        DataTypeView::Struct(fs) => field_lookup(fs, name),
        _ => None,
    }
}

pub proof fn lemma_field_index_from_found(fs: Seq<FieldView>, name: Seq<char>, start: int)
    requires
        0 <= start,
    ensures
        field_index_from(fs, name, start) matches Some(i) ==> start <= i < fs.len() && fs[i].name
            == name,
        field_index_from(fs, name, start) is None ==> forall|j: int|
            start <= j < fs.len() ==> #[trigger] fs[j].name != name,
    decreases fs.len() - start,
{
    if start < fs.len() && fs[start].name != name {
        lemma_field_index_from_found(fs, name, start + 1);
    }
}

pub proof fn lemma_struct_field_exists(d: DataTypeView, name: Seq<char>)
    ensures
        struct_field_exists_view(d, name) <==> struct_field_dtype_view(d, name) is Some,
{
    if let DataTypeView::Struct(fs) = d {
        lemma_field_index_from_found(fs, name, 0);
    }
}

pub proof fn lemma_field_view_at(fs: Vec<Field>, i: int)
    requires
        0 <= i < fs@.len(),
    ensures
        (match (DataType::Struct(fs))@ {
            DataTypeView::Struct(vs) => vs.len() == fs@.len() && vs[i] == fs@[i]@,
            _ => false,
        }),
{
}

impl DataType {
    /// A copy of this dtype (equal view).
    pub fn duplicate(&self) -> (r: DataType)
        ensures
            r@ == self@,
        decreases self,
    {
        match self {
            DataType::Boolean => DataType::Boolean,
            DataType::UInt8 => DataType::UInt8,
            DataType::UInt16 => DataType::UInt16,
            DataType::UInt32 => DataType::UInt32,
            DataType::UInt64 => DataType::UInt64,
            DataType::UInt128 => DataType::UInt128,
            DataType::Int8 => DataType::Int8,
            DataType::Int16 => DataType::Int16,
            DataType::Int32 => DataType::Int32,
            DataType::Int64 => DataType::Int64,
            DataType::Int128 => DataType::Int128,
            DataType::Float32 => DataType::Float32,
            DataType::Float64 => DataType::Float64,
            DataType::String => DataType::String,
            DataType::Binary => DataType::Binary,
            DataType::Date => DataType::Date,
            DataType::Datetime(u, tz) => {
                let tz2 = match tz {
                    Some(s) => Some(s.clone()),
                    None => None,
                };
                DataType::Datetime(*u, tz2)
            },
            DataType::Duration(u) => DataType::Duration(*u),
            DataType::Time => DataType::Time,
            DataType::Decimal(p, s) => DataType::Decimal(*p, *s),
            DataType::List(inner) => DataType::List(Box::new(inner.duplicate())),
            DataType::Array(inner, n) => DataType::Array(Box::new(inner.duplicate()), *n),
            DataType::Struct(fs) => {
                let mut out: Vec<Field> = Vec::new();
                let mut i: usize = 0;
                while i < fs.len()
                    invariant
                        i <= fs@.len(),
                        *self == DataType::Struct(*fs),
                        out@.len() == i,
                        forall|j: int| 0 <= j < i ==> #[trigger] out@[j]@ == fs@[j]@,
                    decreases fs@.len() - i,
                {
                    proof {
                        broadcast use vstd::std_specs::vec::axiom_vec_decreases_to_view;
                        broadcast use vstd::seq::axiom_seq_index_decreases;
                        assert(decreases_to!(*self => (*self)->Struct_0));
                        assert(decreases_to!(*fs => fs@));
                        assert(decreases_to!(fs@ => fs@[i as int]));
                        assert(decreases_to!(fs@[i as int] => fs@[i as int].dtype));
                    }
                    let f = Field { name: fs[i].name.clone(), dtype: fs[i].dtype.duplicate() };
                    out.push(f);
                    i = i + 1;
                }
                let ghost out_v = out@;
                let r = DataType::Struct(out);
                proof {
                    let a = r@->Struct_0;
                    let b = self@->Struct_0;
                    assert forall|j: int| 0 <= j < a.len() implies a[j] == b[j] by {
                        assert(out_v[j]@ == fs@[j]@);
                    }
                    assert(a =~= b);
                }
                r
            },
            DataType::Null => DataType::Null,
            DataType::Unknown => DataType::Unknown,
        }
    }

    /// `true` for the numeric dtypes (integers up to 64 bits and floats).
    pub fn is_vortex_numeric(&self) -> (r: bool)
        ensures
            r == is_numeric_view(self@),
    {
        match self {
            DataType::Int8 | DataType::Int16 | DataType::Int32 | DataType::Int64
            | DataType::UInt8 | DataType::UInt16 | DataType::UInt32 | DataType::UInt64
            | DataType::Float32 | DataType::Float64 => true,
            _ => false,
        }
    }

    pub fn is_boolean(&self) -> (r: bool)
        ensures
            r == (self@ is Boolean),
    {
        match self {
            DataType::Boolean => true,
            _ => false,
        }
    }

    pub fn is_string(&self) -> (r: bool)
        ensures
            r == (self@ is String),
    {
        match self {
            DataType::String => true,
            _ => false,
        }
    }
}

/// Equality of optional time-zone names.
pub fn opt_string_eq(a: &Option<String>, b: &Option<String>) -> (r: bool)
    ensures
        r == (opt_str_view(*a) == opt_str_view(*b)),
{
    match (a, b) {
        (Some(x), Some(y)) => *x == *y,
        (None, None) => true,
        _ => false,
    }
}

/// Equality of Polars dtypes (structural: names, units, time zones, precisions and nested
/// dtypes all agree).
pub fn dtype_eq(a: &DataType, b: &DataType) -> (r: bool)
    ensures
        r == (a@ == b@),
    decreases a,
{
    match (a, b) {
        (DataType::Boolean, DataType::Boolean) => true,
        (DataType::UInt8, DataType::UInt8) => true,
        (DataType::UInt16, DataType::UInt16) => true,
        (DataType::UInt32, DataType::UInt32) => true,
        (DataType::UInt64, DataType::UInt64) => true,
        (DataType::UInt128, DataType::UInt128) => true,
        (DataType::Int8, DataType::Int8) => true,
        (DataType::Int16, DataType::Int16) => true,
        (DataType::Int32, DataType::Int32) => true,
        (DataType::Int64, DataType::Int64) => true,
        (DataType::Int128, DataType::Int128) => true,
        (DataType::Float32, DataType::Float32) => true,
        (DataType::Float64, DataType::Float64) => true,
        (DataType::String, DataType::String) => true,
        (DataType::Binary, DataType::Binary) => true,
        (DataType::Date, DataType::Date) => true,
        (DataType::Datetime(ua, ta), DataType::Datetime(ub, tb)) => *ua == *ub && opt_string_eq(ta, tb),
        (DataType::Duration(ua), DataType::Duration(ub)) => *ua == *ub,
        (DataType::Time, DataType::Time) => true,
        (DataType::Decimal(pa, sa), DataType::Decimal(pb, sb)) => *pa == *pb && *sa == *sb,
        (DataType::List(ia), DataType::List(ib)) => dtype_eq(ia, ib),
        (DataType::Array(ia, na), DataType::Array(ib, nb)) => *na == *nb && dtype_eq(ia, ib),
        (DataType::Struct(fa), DataType::Struct(fb)) => {
            if fa.len() != fb.len() {
                proof {
                    assert(a@->Struct_0.len() != b@->Struct_0.len());
                }
                return false;
            }
            let mut i: usize = 0;
            while i < fa.len()
                invariant
                    i <= fa@.len(),
                    fa@.len() == fb@.len(),
                    *a == DataType::Struct(*fa),
                    *b == DataType::Struct(*fb),
                    forall|j: int| 0 <= j < i ==> #[trigger] fa@[j]@ == fb@[j]@,
                decreases fa@.len() - i,
            {
                proof {
                    broadcast use vstd::std_specs::vec::axiom_vec_decreases_to_view;
                    broadcast use vstd::seq::axiom_seq_index_decreases;
                    assert(decreases_to!(*a => (*a)->Struct_0));
                    assert(decreases_to!(*fa => fa@));
                    assert(decreases_to!(fa@ => fa@[i as int]));
                    assert(decreases_to!(fa@[i as int] => fa@[i as int].dtype));
                    lemma_field_view_at(*fa, i as int);
                    lemma_field_view_at(*fb, i as int);
                }
                let same = fa[i].name == fb[i].name && dtype_eq(&fa[i].dtype, &fb[i].dtype);
                if !same {
                    proof {
                        assert(a@->Struct_0[i as int] != b@->Struct_0[i as int]);
                    }
                    return false;
                }
                i = i + 1;
            }
            proof {
                let va = a@->Struct_0;
                let vb = b@->Struct_0;
                assert forall|j: int| 0 <= j < va.len() implies va[j] == vb[j] by {
                    lemma_field_view_at(*fa, j);
                    lemma_field_view_at(*fb, j);
                }
                assert(va =~= vb);
            }
            true
        },
        (DataType::Null, DataType::Null) => true,
        (DataType::Unknown, DataType::Unknown) => true,
        _ => false,
    }
}

/// Is `dt` one of the primitive numeric dtypes that Vortex's `checked_add` accepts?
pub fn is_vortex_numeric_dtype(dt: &DataType) -> (r: bool)
    ensures
        r == is_numeric_view(dt@),
{
    dt.is_vortex_numeric()
}

/// Is the (source, target) cast pair supported by a same-kind Vortex cast?
pub fn cast_kind_compatible(source: &DataType, target: &DataType) -> (r: bool)
    ensures
        r == cast_kind_compatible_view(source@, target@),
{
    (source.is_boolean() && target.is_boolean()) || (source.is_string() && target.is_string())
        || (is_vortex_numeric_dtype(source) && is_vortex_numeric_dtype(target))
}

/// Index of the first field in `fs` called `name`.
pub fn find_field(fs: &Vec<Field>, name: &String) -> (r: Option<usize>)
    ensures
        r matches Some(i) ==> field_index((DataType::Struct(*fs))@->Struct_0, name@) == Some(i as int),
        r is None ==> field_index((DataType::Struct(*fs))@->Struct_0, name@) is None,
{
    let ghost vs = (DataType::Struct(*fs))@->Struct_0;
    let mut i: usize = 0;
    while i < fs.len()
        invariant
            i <= fs@.len(),
            vs.len() == fs@.len(),
            vs == (DataType::Struct(*fs))@->Struct_0,
            field_index(vs, name@) == field_index_from(vs, name@, i as int),
        decreases fs@.len() - i,
    {
        proof {
            lemma_field_view_at(*fs, i as int);
        }
        if fs[i].name == *name {
            return Some(i);
        }
        i = i + 1;
    }
    None
}

/// Does `dtype` contain a struct field called `name`?
pub fn struct_field_exists(dtype: &DataType, name: &String) -> (r: bool)
    ensures
        r == struct_field_exists_view(dtype@, name@),
{
    proof {
        lemma_struct_field_exists(dtype@, name@);
    }
    match dtype {
        DataType::Struct(fs) => find_field(fs, name).is_some(),
        _ => false,
    }
}

/// The dtype of field `name` of a struct dtype.
pub fn struct_field_dtype(dtype: &DataType, name: &String) -> (r: Option<DataType>)
    ensures
        r matches Some(d) ==> struct_field_dtype_view(dtype@, name@) == Some(d@),
        r is None ==> struct_field_dtype_view(dtype@, name@) is None,
{
    match dtype {
        DataType::Struct(fs) => match find_field(fs, name) {
            Some(i) => {
                proof {
                    lemma_field_index_from_found(dtype@->Struct_0, name@, 0);
                    lemma_field_view_at(*fs, i as int);
                }
                Some(fs[i].dtype.duplicate())
            },
            None => None,
        },
        _ => None,
    }
}

/// The fields after setting field `f`: the first field of the same name is replaced in place,
/// or `f` is appended when there is none.
pub open spec fn schema_with_column(fs: Seq<FieldView>, f: FieldView) -> Seq<FieldView> {
    match field_index(fs, f.name) {
        Some(i) => fs.update(i, f),
        None => fs.push(f),
    }
}

proof fn lemma_first_index(fs: Seq<FieldView>, name: Seq<char>, start: int, i: int)
    requires
        0 <= start <= i < fs.len(),
        fs[i].name == name,
        forall|j: int| start <= j < i ==> #[trigger] fs[j].name != name,
    ensures
        field_index_from(fs, name, start) == Some(i),
    decreases i - start,
{
    if start < i {
        lemma_first_index(fs, name, start + 1, i);
    }
}

proof fn lemma_index_before_first(fs: Seq<FieldView>, name: Seq<char>, start: int, i: int)
    requires
        0 <= start,
        field_index_from(fs, name, start) == Some(i),
    ensures
        forall|j: int| start <= j < i ==> #[trigger] fs[j].name != name,
    decreases fs.len() - start,
{
    if start < fs.len() && fs[start].name != name {
        lemma_index_before_first(fs, name, start + 1, i);
    }
}

proof fn lemma_index_other_name(fs: Seq<FieldView>, gs: Seq<FieldView>, name: Seq<char>, start: int)
    requires
        0 <= start,
        fs.len() <= gs.len(),
        forall|j: int| 0 <= j < fs.len() ==> (#[trigger] fs[j].name == name) == (gs[j].name == name),
        forall|j: int| fs.len() <= j < gs.len() ==> #[trigger] gs[j].name != name,
    ensures
        field_index_from(gs, name, start) == field_index_from(fs, name, start),
    decreases gs.len() - start,
{
    if start < gs.len() {
        lemma_index_other_name(fs, gs, name, start + 1);
    }
}

/// Setting a field and then looking up its name gives its dtype; every other name looks up as
/// before.
pub proof fn lemma_with_column_lookup(fs: Seq<FieldView>, f: FieldView, other: Seq<char>)
    requires
        other != f.name,
    ensures
        field_lookup(schema_with_column(fs, f), f.name) == Some(f.dtype),
        field_lookup(schema_with_column(fs, f), other) == field_lookup(fs, other),
{
    let gs = schema_with_column(fs, f);
    lemma_field_index_from_found(fs, f.name, 0);
    match field_index(fs, f.name) {
        Some(i) => {
            lemma_index_before_first(fs, f.name, 0, i);
            lemma_first_index(gs, f.name, 0, i);
        },
        None => {
            lemma_first_index(gs, f.name, 0, fs.len() as int);
        },
    }
    lemma_index_other_name(fs, gs, other, 0);
    lemma_field_index_from_found(fs, other, 0);
}

/// An ordered collection of named columns; a name is looked up at its first occurrence, and
/// setting a column replaces the first one of its name.
#[derive(Debug)]
pub struct Schema {
    pub fields: Vec<Field>,
}

/// Mathematical value of a [`Schema`]: its fields, in order.
impl View for Schema {
    type V = Seq<FieldView>;

    open spec fn view(&self) -> Seq<FieldView> {
        (DataType::Struct(self.fields))@->Struct_0
    }
}

pub proof fn lemma_schema_view_len(s: &Schema)
    ensures
        s@.len() == s.fields@.len(),
{
}

impl Schema {
    /// An empty schema.
    pub fn new() -> (r: Schema)
        ensures
            r@ == Seq::<FieldView>::empty(),
    {
        let r = Schema { fields: Vec::new() };
        proof {
            assert(r@ =~= Seq::<FieldView>::empty());
        }
        r
    }

    /// Number of columns.
    pub fn len(&self) -> (r: usize)
        ensures
            r == self@.len(),
    {
        self.fields.len()
    }

    /// The dtype of column `name`, if the schema has one.
    pub fn get(&self, name: &String) -> (r: Option<&DataType>)
        ensures
            r matches Some(d) ==> field_lookup(self@, name@) == Some(d@),
            r is None ==> field_lookup(self@, name@) is None,
    {
        match find_field(&self.fields, name) {
            Some(i) => {
                proof {
                    lemma_field_index_from_found(self@, name@, 0);
                    lemma_field_view_at(self.fields, i as int);
                }
                Some(&self.fields[i].dtype)
            },
            None => None,
        }
    }

    /// Set the dtype of column `name`: an existing column keeps its position, a new one is
    /// appended.
    pub fn with_column(&mut self, name: String, dtype: DataType)
        ensures
            final(self)@ == schema_with_column(old(self)@, FieldView { name: name@, dtype: dtype@ }),
    {
        let ghost old_fields = self.fields;
        match find_field(&self.fields, &name) {
            Some(i) => {
                proof {
                    lemma_field_index_from_found(self@, name@, 0);
                }
                let f = Field { name, dtype };
                self.fields.set(i, f);
                proof {
                    assert(self@ =~= (DataType::Struct(old_fields))@->Struct_0.update(
                        i as int,
                        FieldView { name: name@, dtype: dtype@ },
                    ));
                }
            },
            None => {
                let f = Field { name, dtype };
                self.fields.push(f);
                proof {
                    assert(self@ =~= (DataType::Struct(old_fields))@->Struct_0.push(
                        FieldView { name: name@, dtype: dtype@ },
                    ));
                }
            },
        }
    }
}

} // verus!
