use crate::compare::{
    all_wf, batch_equivalent, by_dictionary, classify, column_pair_equivalent, columns_equivalent,
    dict_keys, dict_values, first_column_difference, first_difference, schemas_agree, sequences_equivalent,
    slot_eq, slots_equal, value_eq, verdict_for, Classification, ColumnDifference, Difference,
    Verdict,
};
use crate::model::{
    column_ok, field_compatible, schema_compatible, types_compatible, Column, DataType, RecordBatch,
    Schema, Value,
};
use vstd::prelude::*;

verus! {

proof fn lemma_slots_equal_reflexive(s: Seq<Option<Value>>)
    ensures
        slots_equal(s, s),
{
    assert forall|i: int| 0 <= i < s.len() implies slot_eq(#[trigger] s[i], s[i]) by {
        match s[i] {
            Some(v) => {
                assert(value_eq(v, v));
            },
            None => {},
        }
    }
}

proof fn lemma_slots_equal_symmetric(a: Seq<Option<Value>>, b: Seq<Option<Value>>)
    ensures
        slots_equal(a, b) == slots_equal(b, a),
{
    assert forall|i: int| 0 <= i < a.len() && 0 <= i < b.len() implies slot_eq(#[trigger] a[i], b[i]) == slot_eq(
        b[i],
        a[i],
    ) by {
        match (a[i], b[i]) {
            (Some(x), Some(y)) => {
                assert(value_eq(x, y) == value_eq(y, x));
            },
            _ => {},
        }
    }
    if slots_equal(a, b) {
        assert forall|i: int| 0 <= i < b.len() implies slot_eq(#[trigger] b[i], a[i]) by {
            assert(slot_eq(a[i], b[i]));
        }
    }
    if slots_equal(b, a) {
        assert forall|i: int| 0 <= i < a.len() implies slot_eq(#[trigger] a[i], b[i]) by {
            assert(slot_eq(b[i], a[i]));
        }
    }
}

proof fn lemma_schema_compatible_reflexive(s: Schema)
    ensures
        schema_compatible(s, s),
{
    assert forall|j: int| 0 <= j < s.fields@.len() implies field_compatible(#[trigger] s.fields@[j], s.fields@[j]) by {}
}

proof fn lemma_schema_compatible_symmetric(a: Schema, b: Schema)
    ensures
        schema_compatible(a, b) == schema_compatible(b, a),
{
    if schema_compatible(a, b) {
        assert forall|j: int| 0 <= j < b.fields@.len() implies field_compatible(#[trigger] b.fields@[j], a.fields@[j]) by {
            assert(field_compatible(a.fields@[j], b.fields@[j]));
        }
    }
    if schema_compatible(b, a) {
        assert forall|j: int| 0 <= j < a.fields@.len() implies field_compatible(#[trigger] a.fields@[j], b.fields@[j]) by {
            assert(field_compatible(b.fields@[j], a.fields@[j]));
        }
    }
}

proof fn lemma_columns_equivalent_reflexive(t: DataType, c: Column)
    ensures
        columns_equivalent(t, c, c),
{
    lemma_slots_equal_reflexive(dict_keys(c));
    lemma_slots_equal_reflexive(dict_values(c));
    lemma_slots_equal_reflexive(c.logical());
}

proof fn lemma_columns_equivalent_symmetric(t: DataType, a: Column, b: Column)
    ensures
        columns_equivalent(t, a, b) == columns_equivalent(t, b, a),
{
    lemma_slots_equal_symmetric(dict_keys(a), dict_keys(b));
    lemma_slots_equal_symmetric(dict_values(a), dict_values(b));
    lemma_slots_equal_symmetric(a.logical(), b.logical());
}

/// Columns of compatible types compare alike in either order: where the
/// types differ, one column is plain and both are compared by logical
/// values.
proof fn lemma_column_pair_symmetric(ta: DataType, tb: DataType, a: Column, b: Column)
    requires
        types_compatible(ta, tb),
        a.conforms(ta),
        b.conforms(tb),
    ensures
        columns_equivalent(ta, a, b) == columns_equivalent(tb, b, a),
{
    lemma_columns_equivalent_symmetric(ta, a, b);
    if ta != tb {
        assert(a is Plain || b is Plain);
    }
}

/// Comparing any batch sequence with itself finds it equivalent.
pub proof fn lemma_compare_reflexive(s: Seq<RecordBatch>)
    ensures
        sequences_equivalent(s, s),
        classify(s, s) == Classification::Equivalent,
{
    assert forall|i: int| 0 <= i < s.len() implies schema_compatible(#[trigger] s[i].schema, s[i].schema) by {
        lemma_schema_compatible_reflexive(s[i].schema);
    }
    assert forall|i: int| 0 <= i < s.len() implies batch_equivalent(#[trigger] s[i], s[i]) by {
        assert forall|j: int| 0 <= j < s[i].schema.fields@.len() implies #[trigger] column_pair_equivalent(
            s[i],
            s[i],
            j,
        ) by {
            lemma_columns_equivalent_reflexive(s[i].schema.fields@[j].data_type, s[i].columns@[j]);
        }
    }
}

/// The class of the verdict (equivalent, mismatched, structurally
/// different) does not depend on the order of the two sequences.
pub proof fn lemma_compare_symmetric(a: Seq<RecordBatch>, b: Seq<RecordBatch>)
    requires
        all_wf(a),
        all_wf(b),
    ensures
        classify(a, b) == classify(b, a),
{
    assert forall|i: int| 0 <= i < a.len() && 0 <= i < b.len() implies schema_compatible(#[trigger] a[i].schema, b[i].schema)
        == schema_compatible(b[i].schema, a[i].schema) by {
        lemma_schema_compatible_symmetric(a[i].schema, b[i].schema);
    }
    if a.len() == b.len() && schemas_agree(a, b) {
        assert(schemas_agree(b, a));
        assert forall|i: int| 0 <= i < a.len() implies batch_equivalent(#[trigger] a[i], b[i]) == batch_equivalent(
            b[i],
            a[i],
        ) by {
            assert(schema_compatible(a[i].schema, b[i].schema));
            assert(a[i].wf() && b[i].wf());
            assert forall|j: int| 0 <= j < a[i].schema.fields@.len() implies #[trigger] column_pair_equivalent(
                a[i],
                b[i],
                j,
            ) == column_pair_equivalent(b[i], a[i], j) by {
                assert(field_compatible(a[i].schema.fields@[j], b[i].schema.fields@[j]));
                assert(column_ok(a[i].schema, a[i].columns@, a[i].num_rows, j));
                assert(column_ok(b[i].schema, b[i].columns@, b[i].num_rows, j));
                lemma_column_pair_symmetric(
                    a[i].schema.fields@[j].data_type,
                    b[i].schema.fields@[j].data_type,
                    a[i].columns@[j],
                    b[i].columns@[j],
                );
            }
            if batch_equivalent(a[i], b[i]) {
                assert forall|j: int| 0 <= j < b[i].schema.fields@.len() implies #[trigger] column_pair_equivalent(
                    b[i],
                    a[i],
                    j,
                ) by {
                    assert(column_pair_equivalent(a[i], b[i], j));
                }
            }
            if batch_equivalent(b[i], a[i]) {
                assert forall|j: int| 0 <= j < a[i].schema.fields@.len() implies #[trigger] column_pair_equivalent(
                    a[i],
                    b[i],
                    j,
                ) by {
                    assert(column_pair_equivalent(b[i], a[i], j));
                }
            }
        }
        if sequences_equivalent(a, b) {
            assert forall|i: int| 0 <= i < b.len() implies batch_equivalent(#[trigger] b[i], a[i]) by {
                assert(batch_equivalent(a[i], b[i]));
            }
        }
        if sequences_equivalent(b, a) {
            assert forall|i: int| 0 <= i < a.len() implies batch_equivalent(#[trigger] a[i], b[i]) by {
                assert(batch_equivalent(b[i], a[i]));
            }
        }
    } else if a.len() == b.len() {
        assert(!schemas_agree(b, a));
    }
}

/// Column comparison sees through dictionary encoding: a dictionary column
/// and a plain column holding its logical values compare equivalent,
/// whatever the field's type.
pub proof fn lemma_dictionary_transparency(t: DataType, d: Column, p: Column)
    requires
        d is Dictionary,
        p matches Column::Plain(s) && s@ == d.logical(),
    ensures
        columns_equivalent(t, d, p),
        columns_equivalent(t, p, d),
{
    assert(p.logical() =~= d.logical());
    lemma_slots_equal_reflexive(d.logical());
}

/// Whether column `j` of two batches carries the same data, where the left
/// may hold plain strings and the right the same strings dictionary-encoded.
pub open spec fn same_up_to_encoding(l: RecordBatch, r: RecordBatch, j: int) -> bool {
    let fl = l.schema.fields@[j];
    let fr = r.schema.fields@[j];
    &&& fl.name@ == fr.name@
    &&& {
        ||| (fl.data_type == fr.data_type && l.columns@[j] == r.columns@[j])
        ||| {
            &&& fl.data_type is Utf8
            &&& fr.data_type.is_string_dictionary()
            &&& r.columns@[j] is Dictionary
            &&& l.columns@[j] matches Column::Plain(s) && s@ == r.columns@[j].logical()
        }
    }
}

/// Two batch sequences that differ only in that some string columns on the
/// right are dictionary-encoded compare equivalent.
pub proof fn lemma_dictionary_encoding_is_transparent(l: Seq<RecordBatch>, r: Seq<RecordBatch>)
    requires
        l.len() == r.len(),
        forall|i: int| 0 <= i < l.len() ==> (#[trigger] l[i]).schema.fields@.len() == r[i].schema.fields@.len(),
        forall|i: int, j: int|
            0 <= i < l.len() && 0 <= j < l[i].schema.fields@.len() ==> #[trigger] same_up_to_encoding(l[i], r[i], j),
    ensures
        sequences_equivalent(l, r),
        classify(l, r) == Classification::Equivalent,
{
    assert forall|i: int| 0 <= i < l.len() implies schema_compatible(#[trigger] l[i].schema, r[i].schema) by {
        assert forall|j: int| 0 <= j < l[i].schema.fields@.len() implies field_compatible(
            #[trigger] l[i].schema.fields@[j],
            r[i].schema.fields@[j],
        ) by {
            assert(same_up_to_encoding(l[i], r[i], j));
        }
    }
    assert forall|i: int| 0 <= i < l.len() implies batch_equivalent(#[trigger] l[i], r[i]) by {
        assert forall|j: int| 0 <= j < l[i].schema.fields@.len() implies #[trigger] column_pair_equivalent(
            l[i],
            r[i],
            j,
        ) by {
            assert(same_up_to_encoding(l[i], r[i], j));
            let t = l[i].schema.fields@[j].data_type;
            if t == r[i].schema.fields@[j].data_type && l[i].columns@[j] == r[i].columns@[j] {
                lemma_columns_equivalent_reflexive(t, l[i].columns@[j]);
            } else {
                lemma_dictionary_transparency(t, r[i].columns@[j], l[i].columns@[j]);
            }
        }
    }
}

/// Whether row `k` is null on one side only, in the slots that the
/// comparison of two columns of type `t` reads: the keys of a string
/// dictionary, the logical values of any other column.
pub open spec fn validity_differs(t: DataType, a: Column, b: Column, k: int) -> bool {
    if by_dictionary(t, a, b) {
        &&& 0 <= k < dict_keys(a).len()
        &&& k < dict_keys(b).len()
        &&& (dict_keys(a)[k] is Some) != (dict_keys(b)[k] is Some)
    } else {
        &&& 0 <= k < a.len()
        &&& k < b.len()
        &&& (a.slot(k) is Some) != (b.slot(k) is Some)
    }
}

proof fn lemma_first_difference_differs(a: Seq<Option<Value>>, b: Seq<Option<Value>>, d: Difference)
    requires
        first_difference(a, b, d),
    ensures
        !slots_equal(a, b),
{
    match d {
        Difference::Length { .. } => {},
        Difference::Validity { row } => {
            assert(!slot_eq(a[row as int], b[row as int]));
        },
        Difference::Value { row } => {
            assert(!slot_eq(a[row as int], b[row as int]));
        },
    }
}

proof fn lemma_first_column_difference_differs(
    t: DataType,
    a: Column,
    b: Column,
    cd: ColumnDifference,
)
    requires
        first_column_difference(t, a, b, cd),
    ensures
        !columns_equivalent(t, a, b),
{
    if by_dictionary(t, a, b) {
        if cd.part is Keys {
            lemma_first_difference_differs(dict_keys(a), dict_keys(b), cd.difference);
        } else {
            lemma_first_difference_differs(
                dict_values(a),
                dict_values(b),
                cd.difference,
            );
        }
    } else {
        lemma_first_difference_differs(a.logical(), b.logical(), cd.difference);
    }
}

/// A row that is null on one side only makes two sequences with matching
/// structure mismatched, at the column that holds it.
pub proof fn lemma_null_alignment(l: Seq<RecordBatch>, r: Seq<RecordBatch>, i: int, j: int, k: int)
    requires
        l.len() == r.len(),
        schemas_agree(l, r),
        0 <= i < l.len(),
        0 <= j < l[i].schema.fields@.len(),
        l[i].wf(),
        r[i].wf(),
        validity_differs(l[i].schema.fields@[j].data_type, l[i].columns@[j], r[i].columns@[j], k),
    ensures
        !column_pair_equivalent(l[i], r[i], j),
        classify(l, r) == Classification::Mismatched,
{
    let t = l[i].schema.fields@[j].data_type;
    let a = l[i].columns@[j];
    let b = r[i].columns@[j];
    if by_dictionary(t, a, b) {
        assert(!slot_eq(dict_keys(a)[k], dict_keys(b)[k]));
    } else {
        assert(a.logical()[k] == a.slot(k));
        assert(b.logical()[k] == b.slot(k));
        assert(!slot_eq(a.logical()[k], b.logical()[k]));
    }
    assert(!columns_equivalent(t, a, b));
    assert(!column_pair_equivalent(l[i], r[i], j));
    assert(!batch_equivalent(l[i], r[i]));
}

/// Where a column has a row null on one side only, and every column before
/// it (earlier batches first, then earlier fields) carries the same data,
/// every verdict that the comparison may give names that column.
pub proof fn lemma_null_alignment_names_field(
    l: Seq<RecordBatch>,
    r: Seq<RecordBatch>,
    i: int,
    j: int,
    k: int,
    v: Verdict,
)
    requires
        l.len() == r.len(),
        schemas_agree(l, r),
        0 <= i < l.len(),
        0 <= j < l[i].schema.fields@.len(),
        l[i].wf(),
        r[i].wf(),
        validity_differs(l[i].schema.fields@[j].data_type, l[i].columns@[j], r[i].columns@[j], k),
        forall|i2: int| 0 <= i2 < i ==> batch_equivalent(#[trigger] l[i2], r[i2]),
        forall|j2: int| 0 <= j2 < j ==> #[trigger] column_pair_equivalent(l[i], r[i], j2),
        verdict_for(l, r, v),
    ensures
        v matches Verdict::ValueMismatch { batch, column, field, .. } && batch == i && column == j
            && field@ == l[i].schema.fields@[j].name@,
{
    lemma_null_alignment(l, r, i, j, k);
    match v {
        Verdict::Equivalent => {
            assert(batch_equivalent(l[i], r[i]));
        },
        Verdict::SchemaMismatch { batch } => {
            assert(schema_compatible(l[batch as int].schema, r[batch as int].schema));
        },
        Verdict::ValueMismatch { batch, column, field, part, difference } => {
            lemma_first_column_difference_differs(
                l[batch as int].schema.fields@[column as int].data_type,
                l[batch as int].columns@[column as int],
                r[batch as int].columns@[column as int],
                ColumnDifference { part, difference },
            );
            assert(!column_pair_equivalent(l[batch as int], r[batch as int], column as int));
            if batch < i {
                assert(batch_equivalent(l[batch as int], r[batch as int]));
            } else if batch > i {
                assert(batch_equivalent(l[i], r[i]));
            } else if column > j {
                assert(column_pair_equivalent(l[i], r[i], j));
            }
        },
        _ => {},
    }
}

} // verus!
