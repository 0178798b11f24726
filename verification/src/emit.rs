//! What is written, and to which sinks.
//!
//! The captured output becomes a sequence of records, one for each line:
//! first the lines of stdout at severity `Info`, then the lines of stderr at
//! severity `Error`, each stream in its own order. Every sink that a decision
//! activates receives that whole sequence; a sink that it does not activate
//! receives nothing.

use crate::decision::{lemma_routing_sinks, Decision};
use crate::lines::{lemma_line_count, line_count, line_views, lines_of, split_lines};
use crate::run::{ExecutionResult, Invocation};
use crate::text::{decode, text_of};
use vstd::prelude::*;

verus! {

/// The severity at which a line is written.
#[derive(Clone, Copy, Debug, PartialEq, Eq, Structural)]
pub enum Severity {
    /// A line that the command wrote to stdout.
    Info,
    /// A line that the command wrote to stderr.
    Error,
}

impl Severity {
    /// The tag that marks a line of this severity in the log.
    pub open spec fn spec_tag(self) -> Seq<char> {
        match self {
            Severity::Info => "INFO"@,
            Severity::Error => "ERROR"@,
        }
    }

    /// The tag that marks a line of this severity in the log.
    pub fn tag(self) -> (tag: &'static str)
        ensures
            tag@ == self.spec_tag(),
    {
        match self {
            Severity::Info => "INFO",
            Severity::Error => "ERROR",
        }
    }
}

/// One line to write: its severity and its text.
#[derive(Clone, Debug, PartialEq, Eq)]
pub struct Record {
    pub severity: Severity,
    pub text: String,
}

/// A record with its text as a sequence of characters.
pub struct RecordView {
    pub severity: Severity,
    pub text: Seq<char>,
}

impl View for Record {
    type V = RecordView;

    open spec fn view(&self) -> RecordView {
        RecordView { severity: self.severity, text: self.text@ }
    }
}

impl Record {
    /// A record of the given severity and text.
    pub fn new(severity: Severity, text: String) -> (record: Record)
        ensures
            record@ == (RecordView { severity, text: text@ }),
    {
        Record { severity, text }
    }

    /// The record for one captured line. The line is decoded leniently, so
    /// every line gives a record.
    pub fn from_line(severity: Severity, line: &[u8]) -> (record: Record)
        ensures
            record@ == (RecordView { severity, text: text_of(line@) }),
    {
        Record::new(severity, decode(line))
    }
}

/// The views of a vector of records.
pub open spec fn record_views(records: Seq<Record>) -> Seq<RecordView> {
    records.map_values(|record: Record| record@)
}

/// One record of the given severity for each line.
pub open spec fn tagged(severity: Severity, lines: Seq<Seq<u8>>) -> Seq<RecordView> {
    lines.map_values(|line: Seq<u8>| RecordView { severity, text: text_of(line) })
}

/// The records of a run: the lines of stdout at `Info`, then the lines of
/// stderr at `Error`.
pub open spec fn records_of(stdout: Seq<u8>, stderr: Seq<u8>) -> Seq<RecordView> {
    tagged(Severity::Info, lines_of(stdout)) + tagged(Severity::Error, lines_of(stderr))
}

/// What a sink receives of a run: every record if it is active, nothing if it
/// is not.
pub open spec fn written(active: bool, stdout: Seq<u8>, stderr: Seq<u8>) -> Seq<RecordView> {
    if active {
        records_of(stdout, stderr)
    } else {
        Seq::empty()
    }
}

/// The test for records of one severity.
pub open spec fn has_severity(severity: Severity) -> spec_fn(RecordView) -> bool {
    |record: RecordView| record.severity == severity
}

/// Number of records of the given severity.
pub open spec fn count_of(records: Seq<RecordView>, severity: Severity) -> nat {
    records.filter(has_severity(severity)).len()
}

/// The records for the lines of one captured stream, in order.
pub fn line_records(severity: Severity, output: &[u8]) -> (records: Vec<Record>)
    ensures
        record_views(records@) == tagged(severity, lines_of(output@)),
{
    let lines = split_lines(output);
    let mut records: Vec<Record> = Vec::new();
    let mut i: usize = 0;
    while i < lines.len()
        invariant
            i <= lines@.len(),
            line_views(lines@) == lines_of(output@),
            record_views(records@) == tagged(severity, lines_of(output@).take(i as int)),
        decreases lines@.len() - i,
    {
        let record = Record::from_line(severity, lines[i].as_slice());
        proof {
            let all = lines_of(output@);
            assert(lines@[i as int]@ == line_views(lines@)[i as int]);
            assert(all.take(i + 1) == all.take(i as int).push(all[i as int]));
            assert(record_views(records@.push(record)) == record_views(records@).push(record@));
            assert(tagged(severity, all.take(i as int).push(all[i as int])) == tagged(
                severity,
                all.take(i as int),
            ).push(RecordView { severity, text: text_of(all[i as int]) }));
        }
        records.push(record);
        i += 1;
    }
    proof {
        let all = lines_of(output@);
        assert(all.take(i as int) == all);
    }
    records
}

/// The records of a run, in the order in which they are written: every line
/// of stdout comes before every line of stderr.
pub fn records(result: &ExecutionResult) -> (records: Vec<Record>)
    ensures
        record_views(records@) == records_of(result.stdout@, result.stderr@),
{
    let mut records = line_records(Severity::Info, result.stdout.as_slice());
    let mut errors = line_records(Severity::Error, result.stderr.as_slice());
    let ghost infos = records@;
    let ghost errs = errors@;
    records.append(&mut errors);
    proof {
        assert(records@ == infos + errs);
        assert(record_views(infos + errs) == record_views(infos) + record_views(errs));
    }
    records
}

/// What to write and where: the sinks to activate, and the records that each
/// active sink receives.
#[derive(Clone, Debug, PartialEq, Eq)]
pub struct EmissionPlan {
    pub terminal: bool,
    pub log: bool,
    pub records: Vec<Record>,
}

impl EmissionPlan {
    /// What the terminal receives.
    pub open spec fn for_terminal(&self) -> Seq<RecordView> {
        if self.terminal {
            record_views(self.records@)
        } else {
            Seq::empty()
        }
    }

    /// What the log receives.
    pub open spec fn for_log(&self) -> Seq<RecordView> {
        if self.log {
            record_views(self.records@)
        } else {
            Seq::empty()
        }
    }

    /// The plan that is left when the log destination cannot be opened: the
    /// log receives nothing, and the terminal what it was to receive anyway.
    pub fn without_log(self) -> (rest: EmissionPlan)
        ensures
            !rest.log,
            rest.terminal == self.terminal,
            rest.for_terminal() == self.for_terminal(),
            rest.for_log() == Seq::<RecordView>::empty(),
    {
        EmissionPlan { terminal: self.terminal, log: false, records: self.records }
    }
}

/// Plans the emission of a run: which sinks are activated, and what they
/// receive. A suppressed run activates no sink and writes nothing; any other
/// writes every record to each sink of its decision.
pub fn plan_emission(decision: Decision, result: &ExecutionResult) -> (plan: EmissionPlan)
    ensures
        plan.terminal == decision.uses_terminal(),
        plan.log == decision.uses_log(),
        plan.for_terminal() == written(decision.uses_terminal(), result.stdout@, result.stderr@),
        plan.for_log() == written(decision.uses_log(), result.stdout@, result.stderr@),
        decision == Decision::Suppress ==> plan.records@.len() == 0,
{
    match decision {
        Decision::Suppress => EmissionPlan { terminal: false, log: false, records: Vec::new() },
        _ => EmissionPlan {
            terminal: decision.uses_terminal(),
            log: decision.uses_log(),
            records: records(result),
        },
    }
}

/// Plans a run from its description and from what came of the command: the
/// decision is resolved from the success flag and the two flags of the
/// invocation, and the emission planned for it.
pub fn plan_run(invocation: &Invocation, result: &ExecutionResult) -> (plan: EmissionPlan)
    ensures
        plan.terminal == (!result.success || invocation.alert_on_stderr()),
        plan.log == invocation.has_log(),
        plan.for_terminal() == written(plan.terminal, result.stdout@, result.stderr@),
        plan.for_log() == written(plan.log, result.stdout@, result.stderr@),
        !plan.terminal && !plan.log ==> plan.records@.len() == 0,
{
    proof {
        lemma_routing_sinks(result.success, invocation.has_log(), invocation.alert_on_stderr());
    }
    plan_emission(invocation.resolve(result), result)
}

/// Within the records of a run, stdout comes first: the records are one for
/// each line of stdout, in order and at `Info`, followed by one for each line
/// of stderr, in order and at `Error`; so no `Info` record follows an `Error`
/// record.
pub proof fn lemma_stdout_precedes_stderr(stdout: Seq<u8>, stderr: Seq<u8>)
    ensures
        records_of(stdout, stderr).len() == lines_of(stdout).len() + lines_of(stderr).len(),
        forall|i: int|
            0 <= i < lines_of(stdout).len() ==> #[trigger] records_of(stdout, stderr)[i] == (
            RecordView { severity: Severity::Info, text: text_of(lines_of(stdout)[i]) }),
        forall|i: int|
            lines_of(stdout).len() <= i < records_of(stdout, stderr).len() ==> #[trigger] records_of(
                stdout,
                stderr,
            )[i] == (RecordView {
                severity: Severity::Error,
                text: text_of(lines_of(stderr)[i - lines_of(stdout).len()]),
            }),
        forall|i: int, j: int|
            0 <= i < j < records_of(stdout, stderr).len() && (#[trigger] records_of(
                stdout,
                stderr,
            )[j]).severity == Severity::Info ==> (#[trigger] records_of(
                stdout,
                stderr,
            )[i]).severity == Severity::Info,
{
}

/// Filtering the records of one stream by severity keeps all of them or none.
proof fn lemma_filter_tagged(severity: Severity, wanted: Severity, lines: Seq<Seq<u8>>)
    ensures
        tagged(severity, lines).filter(has_severity(wanted)) == if severity == wanted {
            tagged(severity, lines)
        } else {
            Seq::empty()
        },
    decreases lines.len(),
{
    reveal(Seq::filter);
    let all = tagged(severity, lines);
    if lines.len() > 0 {
        lemma_filter_tagged(severity, wanted, lines.drop_last());
        assert(all.drop_last() == tagged(severity, lines.drop_last()));
        if severity == wanted {
            assert(all.drop_last().push(all.last()) == all);
        }
    }
}

/// Each sink of a run receives one `Info` record for each line of stdout and
/// one `Error` record for each line of stderr: a line for each line feed, and
/// one more for bytes that follow the last line feed, so a final terminator
/// adds no empty line.
pub proof fn lemma_record_counts(stdout: Seq<u8>, stderr: Seq<u8>)
    ensures
        count_of(records_of(stdout, stderr), Severity::Info) == line_count(stdout),
        count_of(records_of(stdout, stderr), Severity::Error) == line_count(stderr),
        records_of(stdout, stderr).len() == line_count(stdout) + line_count(stderr),
{
    let infos = tagged(Severity::Info, lines_of(stdout));
    let errors = tagged(Severity::Error, lines_of(stderr));
    lemma_line_count(stdout);
    lemma_line_count(stderr);
    lemma_filter_tagged(Severity::Info, Severity::Info, lines_of(stdout));
    lemma_filter_tagged(Severity::Error, Severity::Info, lines_of(stderr));
    lemma_filter_tagged(Severity::Info, Severity::Error, lines_of(stdout));
    lemma_filter_tagged(Severity::Error, Severity::Error, lines_of(stderr));
    Seq::filter_distributes_over_add(infos, errors, has_severity(Severity::Info));
    Seq::filter_distributes_over_add(infos, errors, has_severity(Severity::Error));
}

/// Both sinks of a run receive the same: where a decision activates the
/// terminal and the log, what it writes to one it writes to the other.
pub proof fn lemma_sinks_receive_the_same(decision: Decision, stdout: Seq<u8>, stderr: Seq<u8>)
    requires
        decision.uses_terminal(),
        decision.uses_log(),
    ensures
        written(decision.uses_terminal(), stdout, stderr) == written(
            decision.uses_log(),
            stdout,
            stderr,
        ),
{
}

} // verus!
