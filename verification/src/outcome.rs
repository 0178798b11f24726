//! How a run of the wrapper itself ends.
//!
//! The wrapped command may fail; that is data, and the wrapper still ends
//! well. The wrapper ends badly only through faults of its own: the command
//! could not be started, or a sink could not be opened or written. Such a
//! fault is never silenced: it gives a non-zero exit code and a diagnostic for
//! the terminal, whatever the routing decision was.

use crate::emit::{Record, RecordView, Severity};
use vstd::prelude::*;
use vstd::string::StringExecFns;

verus! {

/// How a sink failed.
#[derive(Clone, Copy, Debug, PartialEq, Eq, Structural)]
pub enum SinkFault {
    /// The sink could not be created or opened.
    Open,
    /// The sink was open, and writing to it failed.
    Write,
}

/// The faults of one emission, sink by sink. Where both sinks failed, both
/// faults are kept.
#[derive(Clone, Copy, Debug, PartialEq, Eq, Structural)]
pub struct EmitError {
    pub terminal: Option<SinkFault>,
    pub log: Option<SinkFault>,
}

/// A fault of the wrapper.
#[derive(Clone, Copy, Debug, PartialEq, Eq, Structural)]
pub enum RunError {
    /// The command could not be started.
    Spawn,
    /// The command ran, and emitting its output failed.
    Emit(EmitError),
}

/// The exit code of a run that ended without a fault.
pub const EXIT_OK: u8 = 0;

/// The exit code of a run that ended with a fault.
pub const EXIT_FAULT: u8 = 1;

impl EmitError {
    /// True when the error names a fault.
    pub open spec fn well_formed(&self) -> bool {
        self.terminal is Some || self.log is Some
    }
}

/// The result of an emission in which the sinks failed as given.
pub open spec fn emission_result(terminal: Option<SinkFault>, log: Option<SinkFault>) -> Result<
    (),
    EmitError,
> {
    if terminal is None && log is None {
        Ok(())
    } else {
        Err(EmitError { terminal, log })
    }
}

/// Concludes an emission from what became of each sink: `None` for a sink
/// that did its work or was not used, the fault for one that failed. The
/// emission succeeded exactly when no sink failed; otherwise every fault is
/// reported, none hidden by another.
pub fn conclude_emission(terminal: Option<SinkFault>, log: Option<SinkFault>) -> (result: Result<
    (),
    EmitError,
>)
    ensures
        result == emission_result(terminal, log),
        result matches Err(error) ==> error.well_formed(),
{
    match (terminal, log) {
        (None, None) => Ok(()),
        _ => Err(EmitError { terminal, log }),
    }
}

/// The exit code for an outcome: zero without a fault, one with.
pub open spec fn exit_code_of(outcome: Result<(), RunError>) -> u8 {
    match outcome {
        Ok(_) => EXIT_OK,
        Err(_) => EXIT_FAULT,
    }
}

/// The exit code of the wrapper. It tells only of the wrapper's own faults:
/// how the wrapped command ended plays no part in it.
pub fn exit_code(outcome: &Result<(), RunError>) -> (code: u8)
    ensures
        code == exit_code_of(*outcome),
{
    match outcome {
        Ok(_) => EXIT_OK,
        Err(_) => EXIT_FAULT,
    }
}

/// The diagnostic for a fault of one sink.
pub open spec fn sink_message(log: bool, fault: SinkFault) -> Seq<char> {
    match (log, fault) {
        (false, SinkFault::Open) => "cannot open the terminal"@,
        (false, SinkFault::Write) => "cannot write to the terminal"@,
        (true, SinkFault::Open) => "cannot open the log destination"@,
        (true, SinkFault::Write) => "cannot write to the log destination"@,
    }
}

/// The diagnostics for the fault of one sink, if it has one.
pub open spec fn sink_diagnostics(log: bool, fault: Option<SinkFault>) -> Seq<RecordView> {
    match fault {
        Some(fault) => seq![RecordView { severity: Severity::Error, text: sink_message(log, fault) }],
        None => Seq::empty(),
    }
}

/// The diagnostics for an error: one for each fault, the terminal's first.
pub open spec fn diagnostics_of(error: RunError) -> Seq<RecordView> {
    match error {
        RunError::Spawn => seq![
            RecordView { severity: Severity::Error, text: "cannot start the command"@ },
        ],
        RunError::Emit(error) => sink_diagnostics(false, error.terminal) + sink_diagnostics(
            true,
            error.log,
        ),
    }
}

fn sink_text(log: bool, fault: SinkFault) -> (text: String)
    ensures
        text@ == sink_message(log, fault),
{
    match (log, fault) {
        (false, SinkFault::Open) => String::from_str("cannot open the terminal"),
        (false, SinkFault::Write) => String::from_str("cannot write to the terminal"),
        (true, SinkFault::Open) => String::from_str("cannot open the log destination"),
        (true, SinkFault::Write) => String::from_str("cannot write to the log destination"),
    }
}

/// The diagnostics that the terminal must show for an error, whatever the
/// routing decision was: one `Error` record for each fault.
pub fn diagnostics(error: &RunError) -> (records: Vec<Record>)
    ensures
        crate::emit::record_views(records@) == diagnostics_of(*error),
{
    let mut records: Vec<Record> = Vec::new();
    match error {
        RunError::Spawn => {
            records.push(Record::new(Severity::Error, String::from_str("cannot start the command")));
        },
        RunError::Emit(error) => {
            if let Some(fault) = error.terminal {
                records.push(Record::new(Severity::Error, sink_text(false, fault)));
            }
            if let Some(fault) = error.log {
                records.push(Record::new(Severity::Error, sink_text(true, fault)));
            }
        },
    }
    assert(crate::emit::record_views(records@) =~= diagnostics_of(*error));
    records
}

/// A fault is never silenced: every error that names a fault has a
/// diagnostic, and a non-zero exit code.
pub proof fn lemma_faults_are_reported(error: RunError)
    requires
        error matches RunError::Emit(emit) ==> emit.well_formed(),
    ensures
        diagnostics_of(error).len() > 0,
        forall|i: int|
            0 <= i < diagnostics_of(error).len() ==> (#[trigger] diagnostics_of(error)[i]).severity
                == Severity::Error,
        exit_code_of(Err(error)) != EXIT_OK,
{
}

} // verus!
