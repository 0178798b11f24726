//! The routing decision: which sinks receive the captured output of a run.
//!
//! The decision is a function of three booleans and of nothing else: whether
//! the command succeeded, whether a log destination is configured, and whether
//! the alert-on-stderr flag is set. The captured bytes play no part in it. In
//! particular the alert flag alone routes a successful run to the terminal;
//! whether anything was actually written to stderr is not consulted.

use vstd::prelude::*;

verus! {

/// Where the captured output of one run goes.
#[derive(Clone, Copy, Debug, PartialEq, Eq, Structural)]
pub enum Decision {
    /// No sink is activated and nothing is written.
    Suppress,
    /// The terminal sink alone.
    TerminalOnly,
    /// The log file alone.
    LogOnly,
    /// Both sinks, each receiving the same content.
    TerminalAndLog,
}

/// The routing table.
pub open spec fn routing(success: bool, has_log: bool, alert_on_stderr: bool) -> Decision {
    match (success, has_log, alert_on_stderr) {
        (true, false, false) => Decision::Suppress,
        (true, false, true) => Decision::TerminalOnly,
        (true, true, false) => Decision::LogOnly,
        (true, true, true) => Decision::TerminalAndLog,
        (false, false, _) => Decision::TerminalOnly,
        (false, true, _) => Decision::TerminalAndLog,
    }
}

/// Resolves the routing decision for a run.
pub fn decide(success: bool, has_log: bool, alert_on_stderr: bool) -> (decision: Decision)
    ensures
        decision == routing(success, has_log, alert_on_stderr),
{
    let loud = !success || alert_on_stderr;
    if loud {
        if has_log {
            Decision::TerminalAndLog
        } else {
            Decision::TerminalOnly
        }
    } else if has_log {
        Decision::LogOnly
    } else {
        Decision::Suppress
    }
}

impl Decision {
    /// True when the decision activates the terminal sink.
    pub open spec fn spec_uses_terminal(self) -> bool {
        self == Decision::TerminalOnly || self == Decision::TerminalAndLog
    }

    /// True when the decision activates the log sink.
    pub open spec fn spec_uses_log(self) -> bool {
        self == Decision::LogOnly || self == Decision::TerminalAndLog
    }

    /// Whether the terminal sink is activated.
    #[verifier::when_used_as_spec(spec_uses_terminal)]
    pub fn uses_terminal(self) -> (used: bool)
        ensures
            used == self.spec_uses_terminal(),
    {
        match self {
            Decision::TerminalOnly | Decision::TerminalAndLog => true,
            Decision::Suppress | Decision::LogOnly => false,
        }
    }

    /// Whether the log sink is activated.
    #[verifier::when_used_as_spec(spec_uses_log)]
    pub fn uses_log(self) -> (used: bool)
        ensures
            used == self.spec_uses_log(),
    {
        match self {
            Decision::LogOnly | Decision::TerminalAndLog => true,
            Decision::Suppress | Decision::TerminalOnly => false,
        }
    }
}

/// Equal inputs give equal decisions: the decision is a function of the three
/// flags, so resolving it again for the same run changes nothing.
pub proof fn lemma_routing_is_deterministic(
    success: bool,
    has_log: bool,
    alert_on_stderr: bool,
    success_again: bool,
    has_log_again: bool,
    alert_on_stderr_again: bool,
)
    requires
        success == success_again,
        has_log == has_log_again,
        alert_on_stderr == alert_on_stderr_again,
    ensures
        routing(success, has_log, alert_on_stderr) == routing(
            success_again,
            has_log_again,
            alert_on_stderr_again,
        ),
{
}

/// A decision is determined by the sinks it activates: the terminal is used
/// exactly when the run failed or the alert flag is set, and the log exactly
/// when a log destination is configured.
pub proof fn lemma_routing_sinks(success: bool, has_log: bool, alert_on_stderr: bool)
    ensures
        routing(success, has_log, alert_on_stderr).uses_terminal() == (!success
            || alert_on_stderr),
        routing(success, has_log, alert_on_stderr).uses_log() == has_log,
{
}

/// Output is suppressed exactly for a successful run with no log destination
/// and no alert flag.
pub proof fn lemma_suppress_iff_quiet(success: bool, has_log: bool, alert_on_stderr: bool)
    ensures
        routing(success, has_log, alert_on_stderr) == Decision::Suppress <==> (success && !has_log
            && !alert_on_stderr),
{
}

/// A failed run always reaches the terminal, whatever the alert flag says, and
/// the flag makes no difference to where its output goes.
pub proof fn lemma_failure_reaches_terminal(has_log: bool, alert_on_stderr: bool)
    ensures
        routing(false, has_log, alert_on_stderr).uses_terminal(),
        routing(false, has_log, alert_on_stderr) == routing(false, has_log, !alert_on_stderr),
{
}

} // verus!
