//! Quiet on success, loud on failure: the core of a wrapper for scheduled
//! jobs.
//!
//! A run executes one shell command, captures what it wrote and how it ended,
//! and then decides where that output goes: to the terminal, to a log file, to
//! both, or nowhere. This crate holds the deciding part. Spawning the command
//! and writing to the sinks is left to the caller, who hands the captured
//! values in and carries the resulting plan out.

pub mod decision;
pub mod emit;
pub mod lines;
pub mod outcome;
pub mod run;
pub mod text;

pub use decision::{decide, Decision};
pub use emit::{
    line_records, plan_emission, plan_run, records, EmissionPlan, Record, Severity,
};
pub use lines::split_lines;
pub use outcome::{conclude_emission, diagnostics, exit_code, EmitError, RunError, SinkFault};
pub use run::{shell_argv, ExecutionResult, Invocation};
