use crate::model::{schema_compatible, Column, DataType, RecordBatch, Value};
use vstd::prelude::*;

verus! {

/// Whether a 32-bit pattern is a NaN.
pub open spec fn is_nan32(x: u32) -> bool {
    x & 0x7f80_0000u32 == 0x7f80_0000u32 && x & 0x007f_ffffu32 != 0
}

/// Whether a 64-bit pattern is a NaN.
pub open spec fn is_nan64(x: u64) -> bool {
    x & 0x7ff0_0000_0000_0000u64 == 0x7ff0_0000_0000_0000u64 && x & 0x000f_ffff_ffff_ffffu64 != 0
}

/// IEEE-754 equality on 32-bit patterns (the two zeros are equal), except
/// that any NaN equals any NaN, so that equality is reflexive.
pub open spec fn float32_eq(x: u32, y: u32) -> bool {
    x == y || (is_nan32(x) && is_nan32(y)) || (x & 0x7fff_ffffu32 == 0 && y & 0x7fff_ffffu32 == 0)
}

/// IEEE-754 equality on 64-bit patterns, with NaN equal to NaN.
pub open spec fn float64_eq(x: u64, y: u64) -> bool {
    ||| x == y
    ||| (is_nan64(x) && is_nan64(y))
    ||| (x & 0x7fff_ffff_ffff_ffffu64 == 0 && y & 0x7fff_ffff_ffff_ffffu64 == 0)
}

/// Equality of two present values: byte-exact for strings and bytes, exact
/// for integers and booleans, IEEE-754 for floats.
pub open spec fn value_eq(a: Value, b: Value) -> bool {
    match (a, b) {
        (Value::Boolean(x), Value::Boolean(y)) => x == y,
        (Value::Int(x), Value::Int(y)) => x == y,
        (Value::Float32Bits(x), Value::Float32Bits(y)) => float32_eq(x, y),
        (Value::Float64Bits(x), Value::Float64Bits(y)) => float64_eq(x, y),
        (Value::Utf8(x), Value::Utf8(y)) => x@ == y@,
        (Value::Binary(x), Value::Binary(y)) => x@ == y@,
        _ => false,
    }
}

/// Two slots agree when both are null, or both hold equal values.
pub open spec fn slot_eq(a: Option<Value>, b: Option<Value>) -> bool {
    match (a, b) {
        (None, None) => true,
        (Some(x), Some(y)) => value_eq(x, y),
        _ => false,
    }
}

/// Two slot sequences agree in length and row by row.
pub open spec fn slots_equal(a: Seq<Option<Value>>, b: Seq<Option<Value>>) -> bool {
    &&& a.len() == b.len()
    &&& forall|i: int| 0 <= i < a.len() ==> slot_eq(#[trigger] a[i], b[i])
}

/// How two slot sequences first differ.
#[derive(Debug, Clone, Copy, PartialEq, Eq)]
pub enum Difference {
    /// The lengths differ.
    Length { left: usize, right: usize },
    /// One side is null at this position and the other is not: a row, or
    /// an entry of a dictionary's values array.
    Validity { row: usize },
    /// Both sides hold a value at this position, and the values differ. The
    /// position is a row, or an entry of a dictionary's values array.
    Value { row: usize },
}

/// Rows before `row` agree.
pub open spec fn agree_before(a: Seq<Option<Value>>, b: Seq<Option<Value>>, row: int) -> bool {
    forall|i: int| 0 <= i < row ==> slot_eq(#[trigger] a[i], b[i])
}

/// `d` is the first difference between `a` and `b`.
pub open spec fn first_difference(a: Seq<Option<Value>>, b: Seq<Option<Value>>, d: Difference) -> bool {
    match d {
        Difference::Length { left, right } => a.len() != b.len() && left == a.len() && right == b.len(),
        Difference::Validity { row } => {
            &&& a.len() == b.len()
            &&& row < a.len()
            &&& (a[row as int] is Some) != (b[row as int] is Some)
            &&& agree_before(a, b, row as int)
        },
        Difference::Value { row } => {
            &&& a.len() == b.len()
            &&& row < a.len()
            &&& a[row as int] is Some
            &&& b[row as int] is Some
            &&& !value_eq(a[row as int]->0, b[row as int]->0)
            &&& agree_before(a, b, row as int)
        },
    }
}

pub fn float32_equal(x: u32, y: u32) -> (r: bool)
    ensures
        r == float32_eq(x, y),
{
    let nan_x = x & 0x7f80_0000u32 == 0x7f80_0000u32 && x & 0x007f_ffffu32 != 0;
    let nan_y = y & 0x7f80_0000u32 == 0x7f80_0000u32 && y & 0x007f_ffffu32 != 0;
    x == y || (nan_x && nan_y) || (x & 0x7fff_ffffu32 == 0 && y & 0x7fff_ffffu32 == 0)
}

pub fn float64_equal(x: u64, y: u64) -> (r: bool)
    ensures
        r == float64_eq(x, y),
{
    let nan_x = x & 0x7ff0_0000_0000_0000u64 == 0x7ff0_0000_0000_0000u64 && x
        & 0x000f_ffff_ffff_ffffu64 != 0;
    let nan_y = y & 0x7ff0_0000_0000_0000u64 == 0x7ff0_0000_0000_0000u64 && y
        & 0x000f_ffff_ffff_ffffu64 != 0;
    x == y || (nan_x && nan_y) || (x & 0x7fff_ffff_ffff_ffffu64 == 0 && y
        & 0x7fff_ffff_ffff_ffffu64 == 0)
}

pub fn bytes_equal(x: &Vec<u8>, y: &Vec<u8>) -> (r: bool)
    ensures
        r == (x@ == y@),
{
    if x.len() != y.len() {
        return false;
    }
    let mut i: usize = 0;
    while i < x.len()
        invariant
            x@.len() == y@.len(),
            0 <= i <= x@.len(),
            forall|k: int| 0 <= k < i ==> x@[k] == y@[k],
        decreases x@.len() - i,
    {
        if x[i] != y[i] {
            return false;
        }
        i = i + 1;
    }
    assert(x@ =~= y@);
    true
}

pub fn values_equal(a: &Value, b: &Value) -> (r: bool)
    ensures
        r == value_eq(*a, *b),
{
    match (a, b) {
        (Value::Boolean(x), Value::Boolean(y)) => *x == *y,
        (Value::Int(x), Value::Int(y)) => *x == *y,
        (Value::Float32Bits(x), Value::Float32Bits(y)) => float32_equal(*x, *y),
        (Value::Float64Bits(x), Value::Float64Bits(y)) => float64_equal(*x, *y),
        (Value::Utf8(x), Value::Utf8(y)) => *x == *y,
        (Value::Binary(x), Value::Binary(y)) => bytes_equal(x, y),
        _ => false,
    }
}

/// Compares one row: `None` when the slots agree, else how they differ.
fn row_difference(x: &Option<Value>, y: &Option<Value>, row: usize) -> (r: Option<Difference>)
    ensures
        r is None <==> slot_eq(*x, *y),
        r matches Some(d) ==> (d == Difference::Validity { row } && (x is Some) != (y is Some)) || (
        d == Difference::Value { row } && x is Some && y is Some && !value_eq(x->0, y->0)),
{
    match (x, y) {
        (None, None) => None,
        (Some(u), Some(v)) => {
            if values_equal(u, v) {
                None
            } else {
                Some(Difference::Value { row })
            }
        },
        _ => Some(Difference::Validity { row }),
    }
}

/// Compares two slot sequences row by row.
pub fn compare_slots(a: &Vec<Option<Value>>, b: &Vec<Option<Value>>) -> (r: Result<(), Difference>)
    ensures
        r is Ok <==> slots_equal(a@, b@),
        r matches Err(d) ==> first_difference(a@, b@, d),
{
    if a.len() != b.len() {
        return Err(Difference::Length { left: a.len(), right: b.len() });
    }
    let mut i: usize = 0;
    while i < a.len()
        invariant
            a@.len() == b@.len(),
            0 <= i <= a@.len(),
            agree_before(a@, b@, i as int),
        decreases a@.len() - i,
    {
        match row_difference(&a[i], &b[i], i) {
            Some(d) => {
                return Err(d);
            },
            None => {},
        }
        i = i + 1;
    }
    Ok(())
}

/// The index into the slots behind a column's row `i`, or `None` where the
/// row is null through its dictionary key.
fn locate(c: &Column, i: usize) -> (r: Option<usize>)
    requires
        i < c.len(),
    ensures
        match c {
            Column::Plain(s) => r == Some(i),
            Column::Dictionary(_, values) => match r {
                Some(j) => j < values@.len() && c.slot(i as int) == values@[j as int],
                None => c.slot(i as int) is None,
            },
        },
{
    match c {
        Column::Plain(_) => Some(i),
        Column::Dictionary(keys, values) => match &keys[i] {
            Some(Value::Int(k)) => {
                if 0 <= *k && *k < values.len() as i128 {
                    Some(*k as usize)
                } else {
                    None
                }
            },
            _ => None,
        },
    }
}

/// The slots that a column's rows resolve to.
fn backing(c: &Column) -> (r: &Vec<Option<Value>>)
    ensures
        match c {
            Column::Plain(s) => r == s,
            Column::Dictionary(_, values) => r == values,
        },
{
    match c {
        Column::Plain(s) => s,
        Column::Dictionary(_, values) => values,
    }
}

/// Compares the logical values of two columns row by row.
pub fn compare_logical(a: &Column, b: &Column) -> (r: Result<(), Difference>)
    ensures
        r is Ok <==> slots_equal(a.logical(), b.logical()),
        r matches Err(d) ==> first_difference(a.logical(), b.logical(), d),
{
    let n = a.num_rows();
    let m = b.num_rows();
    if n != m {
        return Err(Difference::Length { left: n, right: m });
    }
    let ghost la = a.logical();
    let ghost lb = b.logical();
    let null: Option<Value> = None;
    let sa = backing(a);
    let sb = backing(b);
    let mut i: usize = 0;
    while i < n
        invariant
            n == a.len(),
            m == b.len(),
            n == m,
            la == a.logical(),
            lb == b.logical(),
            null is None,
            0 <= i <= n,
            agree_before(la, lb, i as int),
            match a {
                Column::Plain(s) => sa == s,
                Column::Dictionary(_, values) => sa == values,
            },
            match b {
                Column::Plain(s) => sb == s,
                Column::Dictionary(_, values) => sb == values,
            },
        decreases n - i,
    {
        let x: &Option<Value> = match locate(a, i) {
            Some(j) => &sa[j],
            None => &null,
        };
        let y: &Option<Value> = match locate(b, i) {
            Some(j) => &sb[j],
            None => &null,
        };
        assert(*x == la[i as int]);
        assert(*y == lb[i as int]);
        match row_difference(x, y, i) {
            Some(d) => {
                return Err(d);
            },
            None => {},
        }
        i = i + 1;
    }
    Ok(())
}

/// Which part of a column a difference was found in.
#[derive(Debug, Clone, Copy, PartialEq, Eq)]
pub enum ColumnPart {
    /// The logical values, row by row.
    Logical,
    /// The keys of a dictionary column.
    Keys,
    /// The values array of a dictionary column.
    DictionaryValues,
}

/// Where and how two columns first differ.
#[derive(Debug, Clone, Copy, PartialEq, Eq)]
pub struct ColumnDifference {
    pub part: ColumnPart,
    pub difference: Difference,
}

/// Whether a field of type `t` is compared through its dictionary's keys
/// and values: a dictionary of integer keys over strings.
pub open spec fn unwraps(t: DataType) -> bool {
    t.is_string_dictionary()
}

pub open spec fn dict_keys(c: Column) -> Seq<Option<Value>> {
    match c {
        Column::Dictionary(keys, _) => keys@,
        Column::Plain(s) => s@,
    }
}

pub open spec fn dict_values(c: Column) -> Seq<Option<Value>> {
    match c {
        Column::Dictionary(_, values) => values@,
        Column::Plain(s) => s@,
    }
}

/// Whether two columns of type `t` go through the dictionary comparison.
pub open spec fn by_dictionary(t: DataType, a: Column, b: Column) -> bool {
    unwraps(t) && a is Dictionary && b is Dictionary
}

/// Whether two columns of a field of type `t` carry the same data: the
/// keys and the values of a string dictionary compared separately, any
/// other column by its logical values.
pub open spec fn columns_equivalent(t: DataType, a: Column, b: Column) -> bool {
    if by_dictionary(t, a, b) {
        slots_equal(dict_keys(a), dict_keys(b)) && slots_equal(dict_values(a), dict_values(b))
    } else {
        slots_equal(a.logical(), b.logical())
    }
}

/// `cd` is the first difference between two columns of type `t`.
pub open spec fn first_column_difference(t: DataType, a: Column, b: Column, cd: ColumnDifference) -> bool {
    if by_dictionary(t, a, b) {
        ||| cd.part is Keys && first_difference(dict_keys(a), dict_keys(b), cd.difference)
        ||| {
            &&& cd.part is DictionaryValues
            &&& slots_equal(dict_keys(a), dict_keys(b))
            &&& first_difference(dict_values(a), dict_values(b), cd.difference)
        }
    } else {
        cd.part is Logical && first_difference(a.logical(), b.logical(), cd.difference)
    }
}

/// Compares two columns of a field of type `t`.
pub fn compare_columns(t: &DataType, a: &Column, b: &Column) -> (r: Result<(), ColumnDifference>)
    ensures
        r is Ok <==> columns_equivalent(*t, *a, *b),
        r matches Err(cd) ==> first_column_difference(*t, *a, *b, cd),
{
    if t.string_dictionary() {
        match (a, b) {
            (Column::Dictionary(ka, va), Column::Dictionary(kb, vb)) => {
                match compare_slots(ka, kb) {
                    Err(d) => {
                        return Err(ColumnDifference { part: ColumnPart::Keys, difference: d });
                    },
                    Ok(()) => {},
                }
                return match compare_slots(va, vb) {
                    Err(d) => Err(ColumnDifference { part: ColumnPart::DictionaryValues, difference: d }),
                    Ok(()) => Ok(()),
                };
            },
            _ => {},
        }
    }
    match compare_logical(a, b) {
        Err(d) => Err(ColumnDifference { part: ColumnPart::Logical, difference: d }),
        Ok(()) => Ok(()),
    }
}

/// Whether column `j` of two batches carries the same data, by the type of
/// the left batch's field.
pub open spec fn column_pair_equivalent(l: RecordBatch, r: RecordBatch, j: int) -> bool {
    columns_equivalent(l.schema.fields@[j].data_type, l.columns@[j], r.columns@[j])
}

/// Whether two batches carry the same data, field by field.
pub open spec fn batch_equivalent(l: RecordBatch, r: RecordBatch) -> bool {
    forall|j: int| 0 <= j < l.schema.fields@.len() ==> #[trigger] column_pair_equivalent(l, r, j)
}

/// Whether batches at equal positions have compatible schemas.
pub open spec fn schemas_agree(l: Seq<RecordBatch>, r: Seq<RecordBatch>) -> bool {
    forall|i: int| 0 <= i < l.len() ==> schema_compatible(#[trigger] l[i].schema, r[i].schema)
}

/// Whether two batch sequences represent the same logical data.
pub open spec fn sequences_equivalent(l: Seq<RecordBatch>, r: Seq<RecordBatch>) -> bool {
    &&& l.len() == r.len()
    &&& schemas_agree(l, r)
    &&& forall|i: int| 0 <= i < l.len() ==> batch_equivalent(#[trigger] l[i], r[i])
}

/// The outcome of comparing two batch sequences.
#[derive(Debug, Clone)]
pub enum Verdict {
    Equivalent,
    /// The sequences hold different numbers of batches.
    BatchCountMismatch { left: usize, right: usize },
    /// The batches at this position have unequal schemas.
    SchemaMismatch { batch: usize },
    /// The first column whose data differ: its batch, its position and
    /// name, and where in it the difference lies.
    ValueMismatch {
        batch: usize,
        column: usize,
        field: String,
        part: ColumnPart,
        difference: Difference,
    },
}

/// A verdict's class.
#[derive(Debug, Clone, Copy, PartialEq, Eq)]
pub enum Classification {
    Equivalent,
    /// The sequences cannot be compared value by value.
    StructuralMismatch,
    Mismatched,
}

/// The class of the verdict on two batch sequences.
pub open spec fn classify(l: Seq<RecordBatch>, r: Seq<RecordBatch>) -> Classification {
    if l.len() != r.len() || !schemas_agree(l, r) {
        Classification::StructuralMismatch
    } else if sequences_equivalent(l, r) {
        Classification::Equivalent
    } else {
        Classification::Mismatched
    }
}

/// Whether every batch is well formed.
pub open spec fn all_wf(s: Seq<RecordBatch>) -> bool {
    forall|i: int| 0 <= i < s.len() ==> (#[trigger] s[i]).wf()
}

pub fn all_batches_well_formed(s: &Vec<RecordBatch>) -> (r: bool)
    ensures
        r == all_wf(s@),
{
    let mut i: usize = 0;
    while i < s.len()
        invariant
            0 <= i <= s@.len(),
            forall|k: int| 0 <= k < i ==> (#[trigger] s@[k]).wf(),
        decreases s@.len() - i,
    {
        if !s[i].is_well_formed() {
            return false;
        }
        i = i + 1;
    }
    true
}

/// `v` is the verdict on `l` against `r`: the first structural difference,
/// else the first column that differs, batch by batch and field by field.
pub open spec fn verdict_for(l: Seq<RecordBatch>, r: Seq<RecordBatch>, v: Verdict) -> bool {
    match v {
        Verdict::Equivalent => sequences_equivalent(l, r),
        Verdict::BatchCountMismatch { left, right } => l.len() != r.len() && left == l.len() && right
            == r.len(),
        Verdict::SchemaMismatch { batch } => {
            &&& l.len() == r.len()
            &&& batch < l.len()
            &&& !schema_compatible(l[batch as int].schema, r[batch as int].schema)
            &&& forall|i: int| 0 <= i < batch ==> schema_compatible(#[trigger] l[i].schema, r[i].schema)
        },
        Verdict::ValueMismatch { batch, column, field, part, difference } => {
            &&& l.len() == r.len()
            &&& schemas_agree(l, r)
            &&& batch < l.len()
            &&& forall|i: int| 0 <= i < batch ==> batch_equivalent(#[trigger] l[i], r[i])
            &&& column < l[batch as int].schema.fields@.len()
            &&& field@ == l[batch as int].schema.fields@[column as int].name@
            &&& forall|k: int| 0 <= k < column ==> #[trigger] column_pair_equivalent(l[batch as int], r[batch as int], k)
            &&& first_column_difference(
                l[batch as int].schema.fields@[column as int].data_type,
                l[batch as int].columns@[column as int],
                r[batch as int].columns@[column as int],
                ColumnDifference { part, difference },
            )
        },
    }
}

impl Verdict {
    pub open spec fn class(self) -> Classification {
        match self {
            Verdict::Equivalent => Classification::Equivalent,
            Verdict::BatchCountMismatch { .. } | Verdict::SchemaMismatch { .. } => Classification::StructuralMismatch,
            Verdict::ValueMismatch { .. } => Classification::Mismatched,
        }
    }

    pub fn classification(&self) -> (r: Classification)
        ensures
            r == self.class(),
    {
        match self {
            Verdict::Equivalent => Classification::Equivalent,
            Verdict::BatchCountMismatch { .. } | Verdict::SchemaMismatch { .. } => Classification::StructuralMismatch,
            Verdict::ValueMismatch { .. } => Classification::Mismatched,
        }
    }
}

/// Compares two batches with equal schemas, field by field.
fn compare_batch(l: &RecordBatch, r: &RecordBatch) -> (res: Result<(), (usize, ColumnDifference)>)
    requires
        l.wf(),
        r.wf(),
        schema_compatible(l.schema, r.schema),
    ensures
        res is Ok <==> batch_equivalent(*l, *r),
        res matches Err((j, cd)) ==> {
            &&& j < l.schema.fields@.len()
            &&& forall|k: int| 0 <= k < j ==> #[trigger] column_pair_equivalent(*l, *r, k)
            &&& first_column_difference(
                l.schema.fields@[j as int].data_type,
                l.columns@[j as int],
                r.columns@[j as int],
                cd,
            )
        },
{
    let mut j: usize = 0;
    while j < l.schema.fields.len()
        invariant
            l.wf(),
            r.wf(),
            schema_compatible(l.schema, r.schema),
            0 <= j <= l.schema.fields@.len(),
            forall|k: int| 0 <= k < j ==> #[trigger] column_pair_equivalent(*l, *r, k),
        decreases l.schema.fields@.len() - j,
    {
        match compare_columns(&l.schema.fields[j].data_type, &l.columns[j], &r.columns[j]) {
            Err(cd) => {
                assert(!column_pair_equivalent(*l, *r, j as int));
                return Err((j, cd));
            },
            Ok(()) => {},
        }
        assert(column_pair_equivalent(*l, *r, j as int));
        j = j + 1;
    }
    Ok(())
}

/// Compares two batch sequences for logical equality: batch counts first,
/// then the schemas of batches at equal positions, then their columns.
pub fn compare(left: &Vec<RecordBatch>, right: &Vec<RecordBatch>) -> (v: Verdict)
    requires
        all_wf(left@),
        all_wf(right@),
    ensures
        verdict_for(left@, right@, v),
        v.class() == classify(left@, right@),
{
    if left.len() != right.len() {
        return Verdict::BatchCountMismatch { left: left.len(), right: right.len() };
    }
    let mut i: usize = 0;
    while i < left.len()
        invariant
            left@.len() == right@.len(),
            0 <= i <= left@.len(),
            forall|k: int| 0 <= k < i ==> schema_compatible(#[trigger] left@[k].schema, right@[k].schema),
        decreases left@.len() - i,
    {
        if !left[i].schema.compatible_with(&right[i].schema) {
            return Verdict::SchemaMismatch { batch: i };
        }
        i = i + 1;
    }
    let mut i: usize = 0;
    while i < left.len()
        invariant
            all_wf(left@),
            all_wf(right@),
            left@.len() == right@.len(),
            schemas_agree(left@, right@),
            0 <= i <= left@.len(),
            forall|k: int| 0 <= k < i ==> batch_equivalent(#[trigger] left@[k], right@[k]),
        decreases left@.len() - i,
    {
        assert(left@[i as int].wf() && right@[i as int].wf());
        assert(schema_compatible(left@[i as int].schema, right@[i as int].schema));
        match compare_batch(&left[i], &right[i]) {
            Err((j, cd)) => {
                let field = left[i].schema.fields[j].name.clone();
                return Verdict::ValueMismatch {
                    batch: i,
                    column: j,
                    field,
                    part: cd.part,
                    difference: cd.difference,
                };
            },
            Ok(()) => {},
        }
        i = i + 1;
    }
    Verdict::Equivalent
}

} // verus!
