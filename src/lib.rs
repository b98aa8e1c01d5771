//! Differential comparison of columnar record batches produced by two
//! independent file readers.
//!
//! The library holds the batch model, the comparator that decides whether
//! two batch sequences carry the same logical data, and the per-file
//! decisions of the differential run (skip, defect, compare) together with
//! the run summary.
pub mod error;
pub mod model;
pub mod compare;
pub mod equivalence;
pub mod outcome;
