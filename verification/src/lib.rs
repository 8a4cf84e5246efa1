//! A stress-testing harness for comparing two implementations of the same
//! computational task: a candidate program and a trusted reference program.
//!
//! Each cycle a generator command rewrites a shared input file, the candidate
//! and the reference are run against it, and the cycle's outcome is decided
//! from their trimmed outputs and the candidate's elapsed time.  This crate
//! holds the decision logic: command-template substitution and tokenization,
//! output comparison, the per-cycle state machine, and outcome rendering.
//! Spawning processes, timing them and reading files is left to the driver,
//! which feeds the results back in as plain values.

pub mod command;
pub mod cycle;
pub mod report;
pub mod text;
