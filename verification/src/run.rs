//! What a run is asked to do and what came of the command.

use crate::decision::{decide, routing, Decision};
use std::path::PathBuf;
use vstd::prelude::*;
use vstd::string::StringExecFns;

verus! {

/// `std::path::PathBuf`, carried through as an opaque value.
#[verifier::external_type_specification]
#[verifier::external_body]
pub struct ExPathBuf(PathBuf);

/// The description of one run: the command, where to log, and the alert flag.
///
/// The command is never empty.
#[derive(Debug, PartialEq, Eq)]
pub struct Invocation {
    command: String,
    log_destination: Option<PathBuf>,
    alert_on_stderr: bool,
}

/// What came of the command: how it ended and what it wrote.
///
/// A command that ended with a non-zero status has run; its failure is data.
#[derive(Clone, Debug, PartialEq, Eq)]
pub struct ExecutionResult {
    pub success: bool,
    pub stdout: Vec<u8>,
    pub stderr: Vec<u8>,
}

impl Invocation {
    #[verifier::type_invariant]
    spec fn well_formed(&self) -> bool {
        self.command@.len() > 0
    }

    /// The command body.
    pub closed spec fn spec_command(&self) -> Seq<char> {
        self.command@
    }

    /// The log destination.
    pub closed spec fn spec_log_destination(&self) -> Option<PathBuf> {
        self.log_destination
    }

    /// The alert flag.
    pub closed spec fn spec_alert_on_stderr(&self) -> bool {
        self.alert_on_stderr
    }

    /// True when a log destination is configured.
    pub open spec fn spec_has_log(&self) -> bool {
        self.spec_log_destination() is Some
    }

    /// Describes a run. An empty command describes none.
    pub fn new(command: String, log_destination: Option<PathBuf>, alert_on_stderr: bool) -> (made:
        Option<Invocation>)
        ensures
            made is Some <==> command@.len() > 0,
            made matches Some(invocation) ==> {
                &&& invocation.spec_command() == command@
                &&& invocation.spec_log_destination() == log_destination
                &&& invocation.spec_alert_on_stderr() == alert_on_stderr
            },
    {
        if command.as_str().is_empty() {
            None
        } else {
            Some(Invocation { command, log_destination, alert_on_stderr })
        }
    }

    /// The command body, as given.
    pub fn command(&self) -> (command: &str)
        ensures
            command@ == self.spec_command(),
            command@.len() > 0,
    {
        proof {
            use_type_invariant(self);
        }
        self.command.as_str()
    }

    /// The log destination, if one is configured.
    pub fn log_destination(&self) -> (destination: Option<&PathBuf>)
        ensures
            destination is Some <==> self.spec_has_log(),
            destination matches Some(path) ==> self.spec_log_destination() == Some(*path),
    {
        self.log_destination.as_ref()
    }

    /// Whether the alert flag is set.
    #[verifier::when_used_as_spec(spec_alert_on_stderr)]
    pub fn alert_on_stderr(&self) -> (alert: bool)
        ensures
            alert == self.spec_alert_on_stderr(),
    {
        self.alert_on_stderr
    }

    /// Whether a log destination is configured.
    #[verifier::when_used_as_spec(spec_has_log)]
    pub fn has_log(&self) -> (has: bool)
        ensures
            has == self.spec_has_log(),
    {
        self.log_destination.is_some()
    }

    /// Resolves where the output of this run goes. Of the result only the
    /// success flag is read.
    pub fn resolve(&self, result: &ExecutionResult) -> (decision: Decision)
        ensures
            decision == routing(result.success, self.has_log(), self.alert_on_stderr()),
    {
        decide(result.success, self.has_log(), self.alert_on_stderr)
    }
}

/// The decision for a run reads nothing of what the command wrote: two
/// results that agree on success resolve alike, whatever their output.
pub proof fn lemma_decision_ignores_output(
    invocation: Invocation,
    one: ExecutionResult,
    other: ExecutionResult,
)
    requires
        one.success == other.success,
    ensures
        routing(one.success, invocation.has_log(), invocation.alert_on_stderr()) == routing(
            other.success,
            invocation.has_log(),
            invocation.alert_on_stderr(),
        ),
{
}

impl ExecutionResult {
    /// Folds how the command ended into the result: it succeeded exactly when
    /// it exited with status zero. A command that ended without an exit
    /// status, stopped by a signal, did not succeed.
    pub fn from_exit_code(code: Option<i32>, stdout: Vec<u8>, stderr: Vec<u8>) -> (result:
        ExecutionResult)
        ensures
            result.success == (code == Some(0i32)),
            result.stdout == stdout,
            result.stderr == stderr,
    {
        let success = match code {
            Some(status) => status == 0,
            None => false,
        };
        ExecutionResult { success, stdout, stderr }
    }
}

/// The words that run `command` through the shell: the shell, the flag that
/// makes it read its next argument as the command, and the command itself.
pub open spec fn shell_words(command: Seq<char>) -> Seq<Seq<char>> {
    seq!["sh"@, "-c"@, command]
}

/// The views of a vector of words.
pub open spec fn word_views(words: Seq<String>) -> Seq<Seq<char>> {
    words.map_values(|word: String| word@)
}

/// The argument vector that runs `command` through the shell. The command is
/// handed on as it is, so pipes, redirections and other shell syntax in it
/// keep their meaning; nothing is quoted or escaped.
pub fn shell_argv(command: &str) -> (argv: Vec<String>)
    ensures
        word_views(argv@) == shell_words(command@),
{
    let mut argv: Vec<String> = Vec::new();
    argv.push(String::from_str("sh"));
    argv.push(String::from_str("-c"));
    argv.push(String::from_str(command));
    assert(word_views(argv@) =~= shell_words(command@));
    argv
}

} // verus!
