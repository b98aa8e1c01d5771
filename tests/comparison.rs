use parquet_cmp::compare::{
    compare, compare_columns, Classification, ColumnPart, Difference, Verdict,
};
use parquet_cmp::model::{BatchError, Column, DataType, Field, RecordBatch, Schema, Value};

fn ints(v: &[Option<i128>]) -> Vec<Option<Value>> {
    v.iter().map(|x| x.map(Value::Int)).collect()
}

fn strs(v: &[Option<&str>]) -> Vec<Option<Value>> {
    v.iter().map(|x| x.map(|s| Value::Utf8(s.to_string()))).collect()
}

fn one_column(name: &str, t: DataType, c: Column, rows: usize) -> RecordBatch {
    let schema = Schema::new(vec![Field::new(name.to_string(), t)]);
    RecordBatch::try_new(schema, vec![c], rows).unwrap()
}

fn int32_batch(values: &[Option<i128>]) -> RecordBatch {
    one_column("a", DataType::Int32, Column::Plain(ints(values)), values.len())
}

fn dict_type() -> DataType {
    DataType::Dictionary(Box::new(DataType::Int32), Box::new(DataType::Utf8))
}

fn dict_batch(keys: &[Option<i128>], values: &[Option<&str>]) -> RecordBatch {
    one_column(
        "s",
        dict_type(),
        Column::Dictionary(ints(keys), strs(values)),
        keys.len(),
    )
}

fn mixed_batch() -> RecordBatch {
    let schema = Schema::new(vec![
        Field::new("b".to_string(), DataType::Boolean),
        Field::new("i".to_string(), DataType::Int64),
        Field::new("u".to_string(), DataType::UInt8),
        Field::new("f".to_string(), DataType::Float64),
        Field::new("s".to_string(), DataType::Utf8),
        Field::new("bin".to_string(), DataType::Binary),
        Field::new("d".to_string(), dict_type()),
    ]);
    let columns = vec![
        Column::Plain(vec![Some(Value::Boolean(true)), None]),
        Column::Plain(ints(&[Some(-5), Some(i64::MAX as i128)])),
        Column::Plain(ints(&[Some(255), None])),
        Column::Plain(vec![
            Some(Value::Float64Bits(f64::NAN.to_bits())),
            Some(Value::Float64Bits(1.5f64.to_bits())),
        ]),
        Column::Plain(strs(&[Some("x"), Some("")])),
        Column::Plain(vec![Some(Value::Binary(vec![0, 1])), None]),
        Column::Dictionary(ints(&[Some(1), None]), strs(&[Some("p"), Some("q")])),
    ];
    RecordBatch::try_new(schema, columns, 2).unwrap()
}

#[test]
fn single_int32_row_equivalent() {
    let v = compare(&vec![int32_batch(&[Some(42)])], &vec![int32_batch(&[Some(42)])]);
    assert!(matches!(v, Verdict::Equivalent));
}

#[test]
fn single_int32_row_mismatch_names_field_and_row() {
    let v = compare(&vec![int32_batch(&[Some(42)])], &vec![int32_batch(&[Some(41)])]);
    match v {
        Verdict::ValueMismatch { batch, column, field, part, difference } => {
            assert_eq!(batch, 0);
            assert_eq!(column, 0);
            assert_eq!(field, "a");
            assert_eq!(part, ColumnPart::Logical);
            assert_eq!(difference, Difference::Value { row: 0 });
        }
        other => panic!("unexpected verdict {:?}", other),
    }
}

#[test]
fn null_alignment_mismatch() {
    let left = vec![int32_batch(&[Some(1), None, Some(3)])];
    let right = vec![int32_batch(&[Some(1), Some(2), Some(3)])];
    match compare(&left, &right) {
        Verdict::ValueMismatch { field, difference, .. } => {
            assert_eq!(field, "a");
            assert_eq!(difference, Difference::Validity { row: 1 });
        }
        other => panic!("unexpected verdict {:?}", other),
    }
    assert_eq!(compare(&right, &left).classification(), Classification::Mismatched);
}

#[test]
fn identical_sequences_are_equivalent() {
    let a = vec![mixed_batch(), mixed_batch()];
    let b = vec![mixed_batch(), mixed_batch()];
    assert!(matches!(compare(&a, &b), Verdict::Equivalent));
}

#[test]
fn classification_does_not_depend_on_order() {
    let cases: Vec<(Vec<RecordBatch>, Vec<RecordBatch>)> = vec![
        (vec![int32_batch(&[Some(1)])], vec![int32_batch(&[Some(1)])]),
        (vec![int32_batch(&[Some(1)])], vec![int32_batch(&[Some(2)])]),
        (vec![int32_batch(&[Some(1)])], vec![]),
        (vec![int32_batch(&[Some(1)])], vec![dict_batch(&[Some(0)], &[Some("a")])]),
    ];
    for (a, b) in cases.iter() {
        assert_eq!(compare(a, b).classification(), compare(b, a).classification());
    }
}

#[test]
fn empty_sequences_are_equivalent() {
    assert!(matches!(compare(&vec![], &vec![]), Verdict::Equivalent));
}

#[test]
fn batch_count_mismatch_is_structural() {
    let v = compare(&vec![int32_batch(&[Some(1)]), int32_batch(&[Some(2)])], &vec![int32_batch(&[Some(1)])]);
    assert!(matches!(v, Verdict::BatchCountMismatch { left: 2, right: 1 }));
    assert_eq!(v.classification(), Classification::StructuralMismatch);
}

#[test]
fn schema_mismatch_is_structural() {
    let left = vec![int32_batch(&[Some(1)])];
    let right = vec![one_column("a", DataType::Int64, Column::Plain(ints(&[Some(1)])), 1)];
    let v = compare(&left, &right);
    assert!(matches!(v, Verdict::SchemaMismatch { batch: 0 }));
    let renamed = vec![one_column("b", DataType::Int32, Column::Plain(ints(&[Some(1)])), 1)];
    assert!(matches!(compare(&left, &renamed), Verdict::SchemaMismatch { batch: 0 }));
}

#[test]
fn row_count_mismatch_in_column() {
    let v = compare(&vec![int32_batch(&[Some(1), Some(2)])], &vec![int32_batch(&[Some(1)])]);
    match v {
        Verdict::ValueMismatch { difference, .. } => {
            assert_eq!(difference, Difference::Length { left: 2, right: 1 })
        }
        other => panic!("unexpected verdict {:?}", other),
    }
}

#[test]
fn dictionary_columns_with_same_keys_are_equivalent() {
    let a = vec![dict_batch(&[Some(0), None, Some(1), Some(0)], &[Some("x"), Some("y")])];
    let b = vec![dict_batch(&[Some(0), None, Some(1), Some(0)], &[Some("x"), Some("y")])];
    assert!(matches!(compare(&a, &b), Verdict::Equivalent));
}

#[test]
fn dictionary_keys_are_compared_apart_from_values() {
    let a = vec![dict_batch(&[Some(0), Some(1)], &[Some("x"), Some("y")])];
    let b = vec![dict_batch(&[Some(1), Some(0)], &[Some("y"), Some("x")])];
    match compare(&a, &b) {
        Verdict::ValueMismatch { field, part, difference, .. } => {
            assert_eq!(field, "s");
            assert_eq!(part, ColumnPart::Keys);
            assert_eq!(difference, Difference::Value { row: 0 });
        }
        other => panic!("unexpected verdict {:?}", other),
    }
    let c = vec![dict_batch(&[Some(0), Some(1)], &[Some("x"), Some("z")])];
    match compare(&a, &c) {
        Verdict::ValueMismatch { part, difference, .. } => {
            assert_eq!(part, ColumnPart::DictionaryValues);
            assert_eq!(difference, Difference::Value { row: 1 });
        }
        other => panic!("unexpected verdict {:?}", other),
    }
}

#[test]
fn dictionary_and_plain_columns_compare_by_logical_values() {
    let dict = Column::Dictionary(ints(&[Some(1), None, Some(0)]), strs(&[Some("a"), Some("b")]));
    let plain = Column::Plain(strs(&[Some("b"), None, Some("a")]));
    assert_eq!(compare_columns(&DataType::Utf8, &dict, &plain), Ok(()));
    assert_eq!(compare_columns(&dict_type(), &plain, &dict), Ok(()));
    let other = Column::Plain(strs(&[Some("b"), None, Some("b")]));
    let r = compare_columns(&DataType::Utf8, &dict, &other);
    assert_eq!(r.unwrap_err().difference, Difference::Value { row: 2 });
}

#[test]
fn plain_and_dictionary_encodings_compare_equivalent() {
    let plain = vec![one_column(
        "s",
        DataType::Utf8,
        Column::Plain(strs(&[Some("a"), Some("b"), Some("a")])),
        3,
    )];
    let dict = vec![dict_batch(&[Some(0), Some(1), Some(0)], &[Some("a"), Some("b")])];
    assert!(matches!(compare(&plain, &dict), Verdict::Equivalent));
    assert!(matches!(compare(&dict, &plain), Verdict::Equivalent));
    let other = vec![dict_batch(&[Some(0), Some(1), Some(1)], &[Some("a"), Some("b")])];
    match compare(&plain, &other) {
        Verdict::ValueMismatch { field, part, difference, .. } => {
            assert_eq!(field, "s");
            assert_eq!(part, ColumnPart::Logical);
            assert_eq!(difference, Difference::Value { row: 2 });
        }
        v => panic!("unexpected verdict {:?}", v),
    }
    let nulls = vec![dict_batch(&[Some(0), None, Some(0)], &[Some("a"), Some("b")])];
    match compare(&plain, &nulls) {
        Verdict::ValueMismatch { difference, .. } => assert_eq!(difference, Difference::Validity { row: 1 }),
        v => panic!("unexpected verdict {:?}", v),
    }
}

#[test]
fn plain_strings_and_other_dictionaries_differ_in_schema() {
    let plain = vec![one_column("s", DataType::Utf8, Column::Plain(strs(&[Some("a")])), 1)];
    let t = DataType::Dictionary(Box::new(DataType::Int32), Box::new(DataType::Binary));
    let dict = vec![one_column(
        "s",
        t,
        Column::Dictionary(ints(&[Some(0)]), vec![Some(Value::Binary(vec![97]))]),
        1,
    )];
    assert!(matches!(compare(&plain, &dict), Verdict::SchemaMismatch { batch: 0 }));
}

#[test]
fn float_equality_rules() {
    let f = |v: f32| Column::Plain(vec![Some(Value::Float32Bits(v.to_bits()))]);
    let t = DataType::Float32;
    assert_eq!(compare_columns(&t, &f(f32::NAN), &f(-f32::NAN)), Ok(()));
    assert_eq!(compare_columns(&t, &f(0.0), &f(-0.0)), Ok(()));
    assert!(compare_columns(&t, &f(1.0), &f(2.0)).is_err());
    assert!(compare_columns(&t, &f(f32::NAN), &f(1.0)).is_err());
    let g = |v: f64| Column::Plain(vec![Some(Value::Float64Bits(v.to_bits()))]);
    assert_eq!(compare_columns(&DataType::Float64, &g(0.0), &g(-0.0)), Ok(()));
    assert!(compare_columns(&DataType::Float64, &g(0.1), &g(0.2)).is_err());
}

#[test]
fn binary_and_boolean_values() {
    let t = DataType::Binary;
    let a = Column::Plain(vec![Some(Value::Binary(vec![1, 2, 3]))]);
    let b = Column::Plain(vec![Some(Value::Binary(vec![1, 2, 4]))]);
    assert!(compare_columns(&t, &a, &a).is_ok());
    assert!(compare_columns(&t, &a, &b).is_err());
    let p = Column::Plain(vec![Some(Value::Boolean(true))]);
    let q = Column::Plain(vec![Some(Value::Boolean(false))]);
    assert!(compare_columns(&DataType::Boolean, &p, &q).is_err());
}

#[test]
fn try_new_rejects_malformed_batches() {
    let schema = || Schema::new(vec![Field::new("a".to_string(), DataType::Int8)]);
    assert_eq!(
        RecordBatch::try_new(schema(), vec![], 0).unwrap_err(),
        BatchError::ColumnCount { expected: 1, found: 0 }
    );
    assert_eq!(
        RecordBatch::try_new(schema(), vec![Column::Plain(ints(&[Some(1)]))], 2).unwrap_err(),
        BatchError::RowCount { column: 0, expected: 2, found: 1 }
    );
    assert_eq!(
        RecordBatch::try_new(schema(), vec![Column::Plain(ints(&[Some(128)]))], 1).unwrap_err(),
        BatchError::ColumnType { column: 0 }
    );
    assert!(RecordBatch::try_new(schema(), vec![Column::Plain(ints(&[Some(-128), None]))], 2).is_ok());
    let dict_schema = Schema::new(vec![Field::new("d".to_string(), dict_type())]);
    let out_of_range = Column::Dictionary(ints(&[Some(2)]), strs(&[Some("a")]));
    assert_eq!(
        RecordBatch::try_new(dict_schema, vec![out_of_range], 1).unwrap_err(),
        BatchError::ColumnType { column: 0 }
    );
}

#[test]
fn same_type_checks_dictionary_structure() {
    assert!(dict_type().same_as(&dict_type()));
    let other = DataType::Dictionary(Box::new(DataType::Int8), Box::new(DataType::Utf8));
    assert!(!dict_type().same_as(&other));
    assert!(!DataType::Utf8.same_as(&DataType::Binary));
}
