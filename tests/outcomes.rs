use parquet_cmp::compare::Verdict;
use parquet_cmp::error::Error;
use parquet_cmp::model::{Column, DataType, Field, RecordBatch, Schema, Value};
use parquet_cmp::outcome::{file_compare, FileOutcome, RunSummary, Status};

fn int32_file(v: i128) -> Vec<RecordBatch> {
    let schema = Schema::new(vec![Field::new("a".to_string(), DataType::Int32)]);
    vec![RecordBatch::try_new(schema, vec![Column::Plain(vec![Some(Value::Int(v))])], 1).unwrap()]
}

fn err(s: &str) -> Error {
    Error::new(s.to_string())
}

#[test]
fn equal_failures_skip_the_file() {
    let o = file_compare(Err(err("parquet error: bad magic")), Err(err("parquet error: bad magic")));
    assert_eq!(o.kind(), Status::Skipped);
    match o {
        FileOutcome::Skipped { error } => assert_eq!(error.msg(), "parquet error: bad magic"),
        other => panic!("unexpected outcome {:?}", other),
    }
}

#[test]
fn unequal_failures_are_a_defect() {
    let o = file_compare(Err(err("a")), Err(err("b")));
    assert_eq!(o.kind(), Status::Defect);
}

#[test]
fn asymmetric_failure_is_a_defect() {
    let o = file_compare(Ok(int32_file(42)), Err(err("a")));
    assert_eq!(o.kind(), Status::Defect);
    assert!(matches!(o, FileOutcome::Defect { left: None, right: Some(_) }));
    let o = file_compare(Err(err("a")), Ok(int32_file(42)));
    assert!(matches!(o, FileOutcome::Defect { left: Some(_), right: None }));
}

#[test]
fn two_successes_are_compared() {
    let o = file_compare(Ok(int32_file(42)), Ok(int32_file(42)));
    assert_eq!(o.kind(), Status::Equivalent);
    let o = file_compare(Ok(int32_file(42)), Ok(int32_file(41)));
    assert_eq!(o.kind(), Status::Mismatched);
    match o {
        FileOutcome::Compared { verdict: Verdict::ValueMismatch { field, .. } } => assert_eq!(field, "a"),
        other => panic!("unexpected outcome {:?}", other),
    }
}

#[test]
fn summary_counts_outcomes() {
    let mut s = RunSummary::new();
    assert!(!s.passed());
    s.record("x".to_string(), file_compare(Ok(int32_file(1)), Ok(int32_file(1))));
    assert!(s.passed());
    assert_eq!(s.diagnostics.len(), 0);
    s.record("y".to_string(), file_compare(Err(err("e")), Err(err("e"))));
    assert!(s.passed());
    s.record("z".to_string(), file_compare(Ok(int32_file(1)), Err(err("e"))));
    assert!(!s.passed());
    assert_eq!((s.equivalent, s.mismatched, s.skipped, s.defects), (1, 0, 1, 1));
    assert_eq!(s.total(), 3);
    assert_eq!(s.diagnostics.len(), 2);
    assert_eq!(s.diagnostics[1].0, "z");
    assert!(s.keep_going(false));
    assert!(!s.keep_going(true));
}

#[test]
fn mismatch_fails_the_run() {
    let mut s = RunSummary::new();
    s.record("x".to_string(), file_compare(Ok(int32_file(1)), Ok(int32_file(2))));
    assert_eq!(s.mismatched, 1);
    assert!(!s.passed());
    assert!(s.keep_going(true));
}

#[test]
fn error_text() {
    let e = err("io error: not found");
    assert_eq!(e.to_string(), "Error: io error: not found");
    assert!(e.same_description(&err("io error: not found")));
    assert!(!e.same_description(&err("io error")));
}
