//! A benchmark engine for sorting algorithms.
//!
//! The library turns a chosen sorting algorithm and a chosen data source into
//! a sequence of timed trials. Its pieces are:
//!
//! - [`data`]: the sortable record abstraction, the concrete record type that
//!   the real dataset holds, and the reader that decodes records from the
//!   lines of a line-delimited JSON file;
//! - [`sort`]: the verified sorting strategies and the registry that resolves
//!   an algorithm identifier to one of them;
//! - [`benchmark`]: the measurement record and the two benchmark runners
//!   (synthetic scaling and fixed real dataset);
//! - [`cli`]: the action tokens and the application core that dispatches a
//!   parsed command line to a runner;
//! - [`util`]: the deterministic generator for synthetic data.
//!
//! File reading, argument collection and printing are left to the caller: the
//! library takes plain argument and line vectors and returns measurements or
//! a structured error.

pub mod benchmark;
pub mod cli;
pub mod data;
pub mod sort;
pub mod util;
