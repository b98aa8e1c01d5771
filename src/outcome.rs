use crate::compare::{all_wf, compare, verdict_for, Verdict};
use crate::error::Error;
use crate::model::RecordBatch;
use vstd::prelude::*;

verus! {

/// The terminal state of one file's differential run.
#[derive(Debug, Clone)]
pub enum FileOutcome {
    /// Both readers failed with the same description.
    Skipped { error: Error },
    /// The readers disagree on whether the file can be read, or on why it
    /// cannot: each side's error, where it failed.
    Defect { left: Option<Error>, right: Option<Error> },
    /// Both readers succeeded and their batches were compared.
    Compared { verdict: Verdict },
}

/// The four kinds of terminal state that a run counts.
#[derive(Debug, Clone, Copy, PartialEq, Eq)]
pub enum Status {
    Equivalent,
    Mismatched,
    Skipped,
    Defect,
}

impl FileOutcome {
    pub open spec fn status(self) -> Status {
        match self {
            FileOutcome::Skipped { .. } => Status::Skipped,
            FileOutcome::Defect { .. } => Status::Defect,
            FileOutcome::Compared { verdict } => if verdict is Equivalent {
                Status::Equivalent
            } else {
                Status::Mismatched
            },
        }
    }

    pub fn kind(&self) -> (r: Status)
        ensures
            r == self.status(),
    {
        match self {
            FileOutcome::Skipped { .. } => Status::Skipped,
            FileOutcome::Defect { .. } => Status::Defect,
            FileOutcome::Compared { verdict } => match verdict {
                Verdict::Equivalent => Status::Equivalent,
                _ => Status::Mismatched,
            },
        }
    }
}

/// What one file's run comes to, given what each reader returned.
pub open spec fn outcome_for(
    left: Result<Vec<RecordBatch>, Error>,
    right: Result<Vec<RecordBatch>, Error>,
    o: FileOutcome,
) -> bool {
    match (left, right) {
        (Ok(a), Ok(b)) => o matches FileOutcome::Compared { verdict } && verdict_for(a@, b@, verdict),
        (Err(x), Err(y)) => if x.message() == y.message() {
            o == FileOutcome::Skipped { error: x }
        } else {
            o == FileOutcome::Defect { left: Some(x), right: Some(y) }
        },
        (Ok(_), Err(y)) => o == FileOutcome::Defect { left: None, right: Some(y) },
        (Err(x), Ok(_)) => o == FileOutcome::Defect { left: Some(x), right: None },
    }
}

/// Decides one file's outcome from the results of the two readers: equal
/// failures skip the file, any other failure is a defect, and two successes
/// are compared.
pub fn file_compare(left: Result<Vec<RecordBatch>, Error>, right: Result<Vec<RecordBatch>, Error>) -> (o:
    FileOutcome)
    requires
        left matches Ok(a) ==> all_wf(a@),
        right matches Ok(b) ==> all_wf(b@),
    ensures
        outcome_for(left, right, o),
{
    match (left, right) {
        (Ok(a), Ok(b)) => FileOutcome::Compared { verdict: compare(&a, &b) },
        (Err(x), Err(y)) => {
            if x.same_description(&y) {
                FileOutcome::Skipped { error: x }
            } else {
                FileOutcome::Defect { left: Some(x), right: Some(y) }
            }
        },
        (Ok(_), Err(y)) => FileOutcome::Defect { left: None, right: Some(y) },
        (Err(x), Ok(_)) => FileOutcome::Defect { left: Some(x), right: None },
    }
}

/// Two readers that fail with the same description skip the file; they
/// never make it a defect.
pub proof fn lemma_equal_failures_skip(x: Error, y: Error, o: FileOutcome)
    requires
        x.message() == y.message(),
        outcome_for(Err(x), Err(y), o),
    ensures
        o.status() == Status::Skipped,
{
}

/// One reader succeeding where the other fails is always a defect, in
/// either order.
pub proof fn lemma_asymmetric_failure_defect(a: Vec<RecordBatch>, y: Error, o1: FileOutcome, o2: FileOutcome)
    requires
        outcome_for(Ok(a), Err(y), o1),
        outcome_for(Err(y), Ok(a), o2),
    ensures
        o1.status() == Status::Defect,
        o2.status() == Status::Defect,
{
}

/// The counts of a run's outcomes, and the path and outcome of every file
/// that did not compare equivalent.
#[derive(Debug)]
pub struct RunSummary {
    pub equivalent: u64,
    pub mismatched: u64,
    pub skipped: u64,
    pub defects: u64,
    pub diagnostics: Vec<(String, FileOutcome)>,
}

impl RunSummary {
    /// The count of one kind of outcome.
    pub open spec fn count(self, s: Status) -> u64 {
        match s {
            Status::Equivalent => self.equivalent,
            Status::Mismatched => self.mismatched,
            Status::Skipped => self.skipped,
            Status::Defect => self.defects,
        }
    }

    pub open spec fn files(self) -> int {
        self.equivalent + self.mismatched + self.skipped + self.defects
    }

    pub fn new() -> (r: RunSummary)
        ensures
            r.equivalent == 0 && r.mismatched == 0 && r.skipped == 0 && r.defects == 0,
            r.diagnostics@.len() == 0,
    {
        RunSummary { equivalent: 0, mismatched: 0, skipped: 0, defects: 0, diagnostics: Vec::new() }
    }

    /// Adds one file's outcome to the run.
    pub fn record(&mut self, path: String, outcome: FileOutcome)
        requires
            old(self).count(outcome.status()) < u64::MAX,
        ensures
            forall|s: Status| #[trigger] final(self).count(s) == old(self).count(s) + if outcome.status() == s {
                1int
            } else {
                0int
            },
            outcome.status() is Equivalent ==> final(self).diagnostics@ == old(self).diagnostics@,
            !(outcome.status() is Equivalent) ==> final(self).diagnostics@ == old(self).diagnostics@.push(
                (path, outcome),
            ),
    {
        match outcome.kind() {
            Status::Equivalent => {
                self.equivalent = self.equivalent + 1;
            },
            Status::Mismatched => {
                self.mismatched = self.mismatched + 1;
                self.diagnostics.push((path, outcome));
            },
            Status::Skipped => {
                self.skipped = self.skipped + 1;
                self.diagnostics.push((path, outcome));
            },
            Status::Defect => {
                self.defects = self.defects + 1;
                self.diagnostics.push((path, outcome));
            },
        }
    }

    /// The number of files recorded.
    pub fn total(&self) -> (r: u128)
        ensures
            r == self.files(),
    {
        self.equivalent as u128 + self.mismatched as u128 + self.skipped as u128 + self.defects as u128
    }

    /// Whether the run succeeded: some file was recorded, and no file was
    /// a defect or a mismatch.
    pub fn passed(&self) -> (r: bool)
        ensures
            r == (self.files() > 0 && self.defects == 0 && self.mismatched == 0),
    {
        self.total() > 0 && self.defects == 0 && self.mismatched == 0
    }

    /// Whether more files should be taken up: always, unless the run stops
    /// at its first defect and one has been recorded.
    pub fn keep_going(&self, fail_fast: bool) -> (r: bool)
        ensures
            r == !(fail_fast && self.defects > 0),
    {
        !(fail_fast && self.defects > 0)
    }
}

} // verus!
