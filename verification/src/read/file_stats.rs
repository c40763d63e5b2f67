//! Vortex file-level statistics → the per-file statistics table that Polars prunes files with.
//!
//! The table has one row and these columns: `len` (the file's row count), then for each column
//! `{col}_min`, `{col}_max` (in the column's dtype, null when unknown) and `{col}_nc` (its null
//! count). Only exact statistics are used: an inexact bound would let the pruner skip files that
//! hold matching rows, so inexact (and missing) statistics become null.
use vstd::prelude::*;
use crate::pl_dtype::{DataType, DataTypeView, FieldView, Schema};
use crate::pl_scalar::AnyValue;
use crate::vx_model::{pvalue_as_i64_spec, pvalue_as_u64_spec, pvalue_int, PValue, Precision, ScalarValue};

verus! {

/// The statistics Vortex keeps for one column of a file.
#[derive(Debug)]
pub struct StatsSet {
    pub min: Option<Precision<ScalarValue>>,
    pub max: Option<Precision<ScalarValue>>,
    pub null_count: Option<Precision<ScalarValue>>,
}

/// Per-column statistics of a file, in the order of the file's struct fields.
#[derive(Debug)]
pub struct FileStatistics {
    pub stats_sets: Vec<StatsSet>,
}

/// What the statistics table reads from a Vortex file footer.
#[derive(Debug)]
pub struct Footer {
    pub row_count: u64,
    pub statistics: Option<FileStatistics>,
}

/// A statistics cell: a Polars value, or a float computed from a Vortex primitive value
/// (`PValue::as_f64`, rounded to `f32` for `Float32Of`).
#[derive(Debug, PartialEq)]
pub enum StatValue {
    Value(AnyValue),
    Float32Of(PValue),
    Float64Of(PValue),
}

/// One single-row column of the statistics table.
#[derive(Debug)]
pub struct StatColumn {
    pub name: String,
    pub dtype: DataType,
    /// `None` is a null cell.
    pub value: Option<StatValue>,
}

/// Mathematical value of a [`StatColumn`].
pub struct StatColumnView {
    pub name: Seq<char>,
    pub dtype: DataTypeView,
    pub value: Option<StatValue>,
}

impl View for StatColumn {
    type V = StatColumnView;

    open spec fn view(&self) -> StatColumnView {
        StatColumnView { name: self.name@, dtype: self.dtype@, value: self.value }
    }
}

/// The statistics table of one file: `n_rows` is 1.
#[derive(Debug)]
pub struct TableStatistics {
    pub n_rows: usize,
    pub columns: Vec<StatColumn>,
}

pub open spec fn columns_view(cs: Seq<StatColumn>) -> Seq<StatColumnView> {
    Seq::new(cs.len(), |i: int| cs[i]@)
}

/// The value of an exact statistic; inexact and missing statistics have none.
pub open spec fn exact_spec(p: Option<Precision<ScalarValue>>) -> Option<ScalarValue> {
    match p {
        Some(Precision::Exact(v)) => Some(v),
        _ => None,
    }
}

/// The integer value of an `i64`-readable primitive value if it fits the target range.
pub open spec fn int_in_range(p: PValue, lo: int, hi: int) -> Option<int> {
    match pvalue_as_i64_spec(p) {
        Some(v) => if lo <= v <= hi {
            Some(v as int)
        } else {
            None
        },
        None => None,
    }
}

/// The unsigned value of a `u64`-readable primitive value if it fits the target range.
pub open spec fn uint_in_range(p: PValue, hi: int) -> Option<int> {
    match pvalue_as_u64_spec(p) {
        Some(v) => if v <= hi {
            Some(v as int)
        } else {
            None
        },
        None => None,
    }
}

/// The Polars value of a statistic for a column of dtype `target` (`None` for unsupported
/// dtypes, mismatched kinds and values out of the target's range).
pub open spec fn stat_value_spec(sv: ScalarValue, target: DataTypeView) -> Option<StatValue> {
    match (sv, target) {
        (ScalarValue::Bool(b), DataTypeView::Boolean) => Some(StatValue::Value(AnyValue::Boolean(b))),
        (ScalarValue::Primitive(p), DataTypeView::Int8) => match int_in_range(p, -0x80, 0x7f) {
            Some(v) => Some(StatValue::Value(AnyValue::Int8(v as i8))),
            None => None,
        },
        (ScalarValue::Primitive(p), DataTypeView::Int16) => match int_in_range(p, -0x8000, 0x7fff) {
            Some(v) => Some(StatValue::Value(AnyValue::Int16(v as i16))),
            None => None,
        },
        (ScalarValue::Primitive(p), DataTypeView::Int32) => match int_in_range(
            p,
            -0x8000_0000,
            0x7fff_ffff,
        ) {
            Some(v) => Some(StatValue::Value(AnyValue::Int32(v as i32))),
            None => None,
        },
        (ScalarValue::Primitive(p), DataTypeView::Int64) => match pvalue_as_i64_spec(p) {
            Some(v) => Some(StatValue::Value(AnyValue::Int64(v))),
            None => None,
        },
        (ScalarValue::Primitive(p), DataTypeView::UInt8) => match uint_in_range(p, 0xff) {
            Some(v) => Some(StatValue::Value(AnyValue::UInt8(v as u8))),
            None => None,
        },
        (ScalarValue::Primitive(p), DataTypeView::UInt16) => match uint_in_range(p, 0xffff) {
            Some(v) => Some(StatValue::Value(AnyValue::UInt16(v as u16))),
            None => None,
        },
        (ScalarValue::Primitive(p), DataTypeView::UInt32) => match uint_in_range(p, 0xffff_ffff) {
            Some(v) => Some(StatValue::Value(AnyValue::UInt32(v as u32))),
            None => None,
        },
        (ScalarValue::Primitive(p), DataTypeView::UInt64) => match pvalue_as_u64_spec(p) {
            Some(v) => Some(StatValue::Value(AnyValue::UInt64(v))),
            None => None,
        },
        (ScalarValue::Primitive(p), DataTypeView::Float32) => Some(StatValue::Float32Of(p)),
        (ScalarValue::Primitive(p), DataTypeView::Float64) => Some(StatValue::Float64Of(p)),
        (ScalarValue::Utf8(s), DataTypeView::String) => Some(StatValue::Value(AnyValue::String(s))),
        _ => None,
    }
}

/// The exact statistic `p` as a Polars value for a column of dtype `target`.
pub open spec fn stat_cell_spec(p: Option<Precision<ScalarValue>>, target: DataTypeView) -> Option<StatValue> {
    match exact_spec(p) {
        Some(sv) => stat_value_spec(sv, target),
        None => None,
    }
}

/// The exact null count, read as an unsigned integer.
pub open spec fn null_count_spec(p: Option<Precision<ScalarValue>>) -> Option<u64> {
    match exact_spec(p) {
        Some(ScalarValue::Primitive(pv)) => pvalue_as_u64_spec(pv),
        _ => None,
    }
}

/// The index dtype of Polars row counts (32-bit indices).
pub open spec fn idx_dtype() -> DataTypeView {
    DataTypeView::UInt32
}

/// A row-count cell in the index dtype (the count is truncated to 32 bits).
pub open spec fn idx_value(v: u64) -> StatValue {
    StatValue::Value(AnyValue::UInt32(v as u32))
}

/// The three statistics columns of column `i`.
pub open spec fn column_stats_spec(f: FieldView, ss: StatsSet) -> Seq<StatColumnView> {
    seq![
        StatColumnView { name: f.name + "_min"@, dtype: f.dtype, value: stat_cell_spec(ss.min, f.dtype) },
        StatColumnView { name: f.name + "_max"@, dtype: f.dtype, value: stat_cell_spec(ss.max, f.dtype) },
        StatColumnView {
            name: f.name + "_nc"@,
            dtype: idx_dtype(),
            value: match null_count_spec(ss.null_count) {
                Some(v) => Some(idx_value(v)),
                None => None,
            },
        },
    ]
}

/// Append the statistics columns of columns `i..` (as long as both the schema and the
/// statistics have an entry) to `acc`.
pub open spec fn stats_columns_spec(
    schema: Seq<FieldView>,
    sets: Seq<StatsSet>,
    i: int,
    acc: Seq<StatColumnView>,
) -> Seq<StatColumnView>
    decreases schema.len() - i,
{
    if i < 0 || i >= schema.len() || i >= sets.len() {
        acc
    } else {
        stats_columns_spec(schema, sets, i + 1, acc + column_stats_spec(schema[i], sets[i]))
    }
}

/// The statistics table of a file, as its columns; `None` when the footer has no statistics.
pub open spec fn table_stats_spec(footer: Footer, schema: Seq<FieldView>) -> Option<Seq<StatColumnView>> {
    match footer.statistics {
        Some(fs) => Some(
            stats_columns_spec(
                schema,
                fs.stats_sets@,
                0,
                seq![StatColumnView { name: "len"@, dtype: idx_dtype(), value: Some(idx_value(footer.row_count)) }],
            ),
        ),
        None => None,
    }
}

/// The Polars dtype of a statistics value (for the kinds of values statistics produce).
pub open spec fn stat_value_dtype(v: StatValue) -> Option<DataTypeView> {
    match v {
        StatValue::Value(av) => match av {
            AnyValue::Boolean(_) => Some(DataTypeView::Boolean),
            AnyValue::Int8(_) => Some(DataTypeView::Int8),
            AnyValue::Int16(_) => Some(DataTypeView::Int16),
            AnyValue::Int32(_) => Some(DataTypeView::Int32),
            AnyValue::Int64(_) => Some(DataTypeView::Int64),
            AnyValue::UInt8(_) => Some(DataTypeView::UInt8),
            AnyValue::UInt16(_) => Some(DataTypeView::UInt16),
            AnyValue::UInt32(_) => Some(DataTypeView::UInt32),
            AnyValue::UInt64(_) => Some(DataTypeView::UInt64),
            AnyValue::String(_) => Some(DataTypeView::String),
            _ => None,
        },
        StatValue::Float32Of(_) => Some(DataTypeView::Float32),
        StatValue::Float64Of(_) => Some(DataTypeView::Float64),
    }
}

/// The values of a Polars integer dtype, as an inclusive range.
pub open spec fn int_dtype_bounds(t: DataTypeView) -> Option<(int, int)> {
    match t {
        DataTypeView::Int8 => Some((-128, 127)),
        DataTypeView::Int16 => Some((-32768, 32767)),
        DataTypeView::Int32 => Some((-2147483648, 2147483647)),
        DataTypeView::Int64 => Some((-9223372036854775808, 9223372036854775807)),
        DataTypeView::UInt8 => Some((0, 255)),
        DataTypeView::UInt16 => Some((0, 65535)),
        DataTypeView::UInt32 => Some((0, 4294967295)),
        DataTypeView::UInt64 => Some((0, 18446744073709551615)),
        _ => None,
    }
}

/// The integer a Polars value holds, for the integer variants.
pub open spec fn any_value_int(av: AnyValue) -> Option<int> {
    match av {
        AnyValue::Int8(x) => Some(x as int),
        AnyValue::Int16(x) => Some(x as int),
        AnyValue::Int32(x) => Some(x as int),
        AnyValue::Int64(x) => Some(x as int),
        AnyValue::UInt8(x) => Some(x as int),
        AnyValue::UInt16(x) => Some(x as int),
        AnyValue::UInt32(x) => Some(x as int),
        AnyValue::UInt64(x) => Some(x as int),
        _ => None,
    }
}

/// An integer statistic converts for an integer column exactly when its value lies in the
/// column dtype's range, and then the cell holds that same value in the column's dtype; a float
/// statistic never converts for an integer column.
pub proof fn lemma_integer_statistic_keeps_its_value(p: PValue, t: DataTypeView)
    requires
        int_dtype_bounds(t) is Some,
    ensures
        ({
            let (lo, hi) = int_dtype_bounds(t)->Some_0;
            let out = stat_value_spec(ScalarValue::Primitive(p), t);
            &&& pvalue_int(p) matches Some(v) ==> (out is Some <==> lo <= v <= hi)
            &&& pvalue_int(p) is None ==> out is None
            &&& out matches Some(c) ==> (c matches StatValue::Value(av) && any_value_int(av)
                == pvalue_int(p) && stat_value_dtype(c) == Some(t))
        }),
{
}

/// Only exact statistics reach the table: an inexact bound or null count is a null cell.
pub proof fn lemma_inexact_statistics_are_null(v: ScalarValue, target: DataTypeView)
    ensures
        stat_cell_spec(Some(Precision::Inexact(v)), target) is None,
        null_count_spec(Some(Precision::Inexact(v))) is None,
{
}

/// A statistics cell always holds a value of its column's dtype.
pub proof fn lemma_stat_value_has_column_dtype(p: Option<Precision<ScalarValue>>, target: DataTypeView)
    ensures
        stat_cell_spec(p, target) matches Some(v) ==> stat_value_dtype(v) == Some(target),
{
}

/// The columns that `stats_columns_spec` appends from index `i` on: three per column, for every
/// column that both the schema and the statistics have.
proof fn lemma_stats_columns_layout(
    schema: Seq<FieldView>,
    sets: Seq<StatsSet>,
    i: int,
    acc: Seq<StatColumnView>,
)
    requires
        0 <= i <= min_len(schema, sets),
    ensures
        ({
            let out = stats_columns_spec(schema, sets, i, acc);
            &&& out.len() == acc.len() + 3 * (min_len(schema, sets) - i)
            &&& forall|k: int| 0 <= k < acc.len() ==> out[k] == acc[k]
            &&& forall|j: int, c: int|
                i <= j < min_len(schema, sets) && 0 <= c < 3 ==> out[acc.len() + 3 * (j - i) + c]
                    == #[trigger] column_stats_spec(schema[j], sets[j])[c]
        }),
    decreases min_len(schema, sets) - i,
{
    if i < min_len(schema, sets) {
        let next = acc + column_stats_spec(schema[i], sets[i]);
        lemma_stats_columns_layout(schema, sets, i + 1, next);
        let out = stats_columns_spec(schema, sets, i, acc);
        assert(out == stats_columns_spec(schema, sets, i + 1, next));
        assert forall|j: int, c: int|
            i <= j < min_len(schema, sets) && 0 <= c < 3 implies out[acc.len() + 3 * (j - i) + c]
            == #[trigger] column_stats_spec(schema[j], sets[j])[c] by {
            if j == i {
                assert(out[acc.len() + c] == next[acc.len() + c]);
            } else {
                assert(acc.len() + 3 * (j - i) + c == next.len() + 3 * (j - (i + 1)) + c);
            }
        }
    }
}

/// The number of columns that have both a schema entry and statistics.
pub open spec fn min_len(schema: Seq<FieldView>, sets: Seq<StatsSet>) -> int {
    if schema.len() <= sets.len() {
        schema.len() as int
    } else {
        sets.len() as int
    }
}

/// The layout of the statistics table: `len` first, then `{name}_min`, `{name}_max` (in the
/// column's dtype) and `{name}_nc` (in the index dtype) for each column, in schema order, as
/// far as both the schema and the statistics reach.
pub proof fn lemma_table_layout(footer: Footer, schema: Seq<FieldView>)
    requires
        footer.statistics is Some,
    ensures
        ({
            let sets = footer.statistics->Some_0.stats_sets@;
            let cols = table_stats_spec(footer, schema)->Some_0;
            &&& table_stats_spec(footer, schema) is Some
            &&& cols.len() == 1 + 3 * min_len(schema, sets)
            &&& cols[0] == (StatColumnView {
                name: "len"@,
                dtype: idx_dtype(),
                value: Some(idx_value(footer.row_count)),
            })
            &&& forall|j: int|
                0 <= j < min_len(schema, sets) ==> {
                    &&& (#[trigger] cols[1 + 3 * j]).name == schema[j].name + "_min"@
                    &&& cols[1 + 3 * j].dtype == schema[j].dtype
                    &&& cols[2 + 3 * j].name == schema[j].name + "_max"@
                    &&& cols[2 + 3 * j].dtype == schema[j].dtype
                    &&& cols[3 + 3 * j].name == schema[j].name + "_nc"@
                    &&& cols[3 + 3 * j].dtype == idx_dtype()
                }
        }),
{
    let sets = footer.statistics->Some_0.stats_sets@;
    let first = seq![
        StatColumnView { name: "len"@, dtype: idx_dtype(), value: Some(idx_value(footer.row_count)) },
    ];
    lemma_stats_columns_layout(schema, sets, 0, first);
    let cols = table_stats_spec(footer, schema)->Some_0;
    assert forall|j: int| 0 <= j < min_len(schema, sets) implies {
        &&& (#[trigger] cols[1 + 3 * j]).name == schema[j].name + "_min"@
        &&& cols[1 + 3 * j].dtype == schema[j].dtype
        &&& cols[2 + 3 * j].name == schema[j].name + "_max"@
        &&& cols[2 + 3 * j].dtype == schema[j].dtype
        &&& cols[3 + 3 * j].name == schema[j].name + "_nc"@
        &&& cols[3 + 3 * j].dtype == idx_dtype()
    } by {
        let three = column_stats_spec(schema[j], sets[j]);
        assert(cols[1 + 3 * j] == three[0]);
        assert(cols[1 + 3 * j + 1] == three[1]);
        assert(cols[1 + 3 * j + 2] == three[2]);
    }
}

/// The value of an exact statistic; inexact statistics are dropped.
pub fn precision_as_exact(p: Precision<ScalarValue>) -> (r: Option<ScalarValue>)
    ensures
        r == exact_spec(Some(p)),
{
    match p {
        Precision::Exact(v) => Some(v),
        Precision::Inexact(_) => None,
    }
}

/// A primitive value as `u64`: unsigned values, and signed values that are not negative
/// (null counts are never negative).
pub fn pvalue_to_u64(pv: PValue) -> (r: Option<u64>)
    ensures
        r == pvalue_as_u64_spec(pv),
{
    match pv {
        PValue::U8(v) => Some(v as u64),
        PValue::U16(v) => Some(v as u64),
        PValue::U32(v) => Some(v as u64),
        PValue::U64(v) => Some(v),
        PValue::I8(v) => if v >= 0 {
            Some(v as u64)
        } else {
            None
        },
        PValue::I16(v) => if v >= 0 {
            Some(v as u64)
        } else {
            None
        },
        PValue::I32(v) => if v >= 0 {
            Some(v as u64)
        } else {
            None
        },
        PValue::I64(v) => if v >= 0 {
            Some(v as u64)
        } else {
            None
        },
        _ => None,
    }
}

/// Convert a Vortex statistic into a Polars value for a column of dtype `target_dt` (see
/// [`stat_value_spec`]).
pub fn scalar_value_to_any_value(sv: &ScalarValue, target_dt: &DataType) -> (r: Option<StatValue>)
    ensures
        r == stat_value_spec(*sv, target_dt@),
{
    match (sv, target_dt) {
        (ScalarValue::Bool(b), DataType::Boolean) => Some(StatValue::Value(AnyValue::Boolean(*b))),
        (ScalarValue::Primitive(pv), DataType::Int8) => match pv.as_i64() {
            Some(i) => if -0x80 <= i && i <= 0x7f {
                Some(StatValue::Value(AnyValue::Int8(i as i8)))
            } else {
                None
            },
            None => None,
        },
        (ScalarValue::Primitive(pv), DataType::Int16) => match pv.as_i64() {
            Some(i) => if -0x8000 <= i && i <= 0x7fff {
                Some(StatValue::Value(AnyValue::Int16(i as i16)))
            } else {
                None
            },
            None => None,
        },
        (ScalarValue::Primitive(pv), DataType::Int32) => match pv.as_i64() {
            Some(i) => if -0x8000_0000 <= i && i <= 0x7fff_ffff {
                Some(StatValue::Value(AnyValue::Int32(i as i32)))
            } else {
                None
            },
            None => None,
        },
        (ScalarValue::Primitive(pv), DataType::Int64) => match pv.as_i64() {
            Some(i) => Some(StatValue::Value(AnyValue::Int64(i))),
            None => None,
        },
        (ScalarValue::Primitive(pv), DataType::UInt8) => match pv.as_u64() {
            Some(u) => if u <= 0xff {
                Some(StatValue::Value(AnyValue::UInt8(u as u8)))
            } else {
                None
            },
            None => None,
        },
        (ScalarValue::Primitive(pv), DataType::UInt16) => match pv.as_u64() {
            Some(u) => if u <= 0xffff {
                Some(StatValue::Value(AnyValue::UInt16(u as u16)))
            } else {
                None
            },
            None => None,
        },
        (ScalarValue::Primitive(pv), DataType::UInt32) => match pv.as_u64() {
            Some(u) => if u <= 0xffff_ffff {
                Some(StatValue::Value(AnyValue::UInt32(u as u32)))
            } else {
                None
            },
            None => None,
        },
        (ScalarValue::Primitive(pv), DataType::UInt64) => match pv.as_u64() {
            Some(u) => Some(StatValue::Value(AnyValue::UInt64(u))),
            None => None,
        },
        (ScalarValue::Primitive(pv), DataType::Float32) => Some(StatValue::Float32Of(*pv)),
        (ScalarValue::Primitive(pv), DataType::Float64) => Some(StatValue::Float64Of(*pv)),
        (ScalarValue::Utf8(s), DataType::String) => Some(StatValue::Value(AnyValue::String(s.clone()))),
        _ => None,
    }
}

/// An exact statistic as a Polars value for a column of dtype `dt`.
fn stat_cell(p: &Option<Precision<ScalarValue>>, dt: &DataType) -> (r: Option<StatValue>)
    ensures
        r == stat_cell_spec(*p, dt@),
{
    match p {
        Some(Precision::Exact(v)) => scalar_value_to_any_value(v, dt),
        _ => None,
    }
}

/// The exact null count of a statistics set.
fn null_count(p: &Option<Precision<ScalarValue>>) -> (r: Option<u64>)
    ensures
        r == null_count_spec(*p),
{
    match p {
        Some(Precision::Exact(ScalarValue::Primitive(pv))) => pvalue_to_u64(*pv),
        _ => None,
    }
}

/// A single-row column of the index dtype holding `value`.
pub fn idx_column(name: String, value: u64) -> (r: StatColumn)
    ensures
        r@ == (StatColumnView { name: name@, dtype: idx_dtype(), value: Some(idx_value(value)) }),
{
    StatColumn { name, dtype: DataType::UInt32, value: Some(StatValue::Value(AnyValue::UInt32(value as u32))) }
}

/// A single-row column of the index dtype: the value, or null.
pub fn opt_idx_column(name: String, value: Option<u64>) -> (r: StatColumn)
    ensures
        r@ == (StatColumnView {
            name: name@,
            dtype: idx_dtype(),
            value: match value {
                Some(v) => Some(idx_value(v)),
                None => None,
            },
        }),
{
    match value {
        Some(v) => idx_column(name, v),
        None => StatColumn { name, dtype: DataType::UInt32, value: None },
    }
}

/// A single-row column of dtype `dtype`: the value, or null.
pub fn scalar_to_typed_column(name: String, value: Option<StatValue>, dtype: &DataType) -> (r: StatColumn)
    ensures
        r@ == (StatColumnView { name: name@, dtype: dtype@, value: value }),
{
    StatColumn { name, dtype: dtype.duplicate(), value }
}

fn suffixed(name: &String, suffix: &str) -> (r: String)
    ensures
        r@ == name@ + suffix@,
{
    let mut n = name.clone();
    n.append(suffix);
    n
}

/// Build the one-row statistics table of a file from its footer and the file's schema
/// (discovered from the file's dtype, columns in struct-field order, which is the order of the
/// footer's statistics). `None` when the footer carries no statistics.
pub fn footer_to_table_statistics(footer: &Footer, file_schema: &Schema) -> (r: Option<TableStatistics>)
    ensures
        r matches Some(t) ==> t.n_rows == 1 && table_stats_spec(*footer, file_schema@) == Some(
            columns_view(t.columns@),
        ),
        r is None ==> table_stats_spec(*footer, file_schema@) is None,
{
    let file_stats = match &footer.statistics {
        Some(fs) => fs,
        None => return None,
    };
    let mut columns: Vec<StatColumn> = Vec::new();
    proof {
        reveal_strlit("len");
    }
    columns.push(idx_column("len".to_owned(), footer.row_count));
    let ghost sets = file_stats.stats_sets@;
    proof {
        assert(columns_view(columns@) =~= seq![
            StatColumnView { name: "len"@, dtype: idx_dtype(), value: Some(idx_value(footer.row_count)) },
        ]);
    }
    let mut i: usize = 0;
    proof {
        crate::pl_dtype::lemma_schema_view_len(file_schema);
    }
    while i < file_schema.fields.len()
        invariant
            i <= file_schema.fields@.len(),
            file_schema@.len() == file_schema.fields@.len(),
            footer.statistics == Some(*file_stats),
            sets == file_stats.stats_sets@,
            table_stats_spec(*footer, file_schema@) == Some(
                stats_columns_spec(file_schema@, sets, i as int, columns_view(columns@)),
            ),
        ensures
            table_stats_spec(*footer, file_schema@) == Some(columns_view(columns@)),
        decreases file_schema.fields@.len() - i,
    {
        if i >= file_stats.stats_sets.len() {
            break;
        }
        proof {
            crate::pl_dtype::lemma_field_view_at(file_schema.fields, i as int);
        }
        let col_name = &file_schema.fields[i].name;
        let col_dtype = &file_schema.fields[i].dtype;
        let stats_set = &file_stats.stats_sets[i];
        let min_av = stat_cell(&stats_set.min, col_dtype);
        let min_col = scalar_to_typed_column(suffixed(col_name, "_min"), min_av, col_dtype);
        let max_av = stat_cell(&stats_set.max, col_dtype);
        let max_col = scalar_to_typed_column(suffixed(col_name, "_max"), max_av, col_dtype);
        let nc_value = null_count(&stats_set.null_count);
        let nc_col = opt_idx_column(suffixed(col_name, "_nc"), nc_value);
        let ghost before = columns_view(columns@);
        columns.push(min_col);
        columns.push(max_col);
        columns.push(nc_col);
        proof {
            assert(columns_view(columns@) =~= before + column_stats_spec(file_schema@[i as int], sets[i as int]));
        }
        i = i + 1;
    }
    Some(TableStatistics { n_rows: 1, columns })
}

} // verus!
