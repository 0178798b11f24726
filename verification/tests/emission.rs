use rcronic::emit::{line_records, plan_emission, plan_run, records, EmissionPlan, Record, Severity};
use rcronic::text::decode;
use rcronic::{Decision, ExecutionResult, Invocation};
use std::path::PathBuf;

fn result(success: bool, stdout: &[u8], stderr: &[u8]) -> ExecutionResult {
    ExecutionResult { success, stdout: stdout.to_vec(), stderr: stderr.to_vec() }
}

fn info(text: &str) -> Record {
    Record::new(Severity::Info, text.to_string())
}

fn error(text: &str) -> Record {
    Record::new(Severity::Error, text.to_string())
}

#[test]
fn record_keeps_severity_and_text() {
    let record = Record::new(Severity::Error, "boom".to_string());
    assert_eq!(record.severity, Severity::Error);
    assert_eq!(record.text, "boom");
}

#[test]
fn severities_have_their_tags() {
    assert_eq!(Severity::Info.tag(), "INFO");
    assert_eq!(Severity::Error.tag(), "ERROR");
}

#[test]
fn valid_text_is_kept() {
    assert_eq!(decode(b"hello"), "hello");
    assert_eq!(decode("caf\u{e9} \u{1f600}".as_bytes()), "caf\u{e9} \u{1f600}");
    assert_eq!(decode(b""), "");
}

#[test]
fn invalid_bytes_are_replaced_not_rejected() {
    assert_eq!(decode(&[0xff]), "\u{fffd}");
    assert_eq!(decode(&[b'a', 0xff, b'b']), "a\u{fffd}b");
    assert_eq!(decode(&[0xe2, 0x82]), "\u{fffd}");
}

#[test]
fn record_from_line_decodes_leniently() {
    assert_eq!(Record::from_line(Severity::Info, b"ok"), info("ok"));
    assert_eq!(Record::from_line(Severity::Error, &[b'x', 0x80]), error("x\u{fffd}"));
}

#[test]
fn one_record_for_each_line() {
    assert_eq!(
        line_records(Severity::Info, b"one\ntwo\nthree\n"),
        vec![info("one"), info("two"), info("three")]
    );
    assert_eq!(line_records(Severity::Error, b"late"), vec![error("late")]);
    assert_eq!(line_records(Severity::Info, b""), Vec::<Record>::new());
}

#[test]
fn line_count_round_trip() {
    assert_eq!(line_records(Severity::Info, b"a\nb\nc").len(), 3);
    assert_eq!(line_records(Severity::Info, b"a\nb\nc\n").len(), 3);
    assert_eq!(line_records(Severity::Info, b"a\r\nb\r\nc\r\n").len(), 3);
    assert_eq!(line_records(Severity::Info, b"\n").len(), 1);
}

#[test]
fn stdout_comes_before_stderr() {
    let all = records(&result(false, b"out 1\nout 2\n", b"err 1\nerr 2\n"));
    assert_eq!(all, vec![info("out 1"), info("out 2"), error("err 1"), error("err 2")]);
}

#[test]
fn no_info_record_follows_an_error_record() {
    let all = records(&result(true, b"a\nb\nc", b"x\ny"));
    let first_error = all.iter().position(|record| record.severity == Severity::Error).unwrap();
    assert_eq!(first_error, 3);
    assert!(all[first_error..].iter().all(|record| record.severity == Severity::Error));
    assert!(all[..first_error].iter().all(|record| record.severity == Severity::Info));
}

#[test]
fn records_count_the_lines_of_each_stream() {
    let all = records(&result(true, b"a\nb\n", b"x\ny\nz"));
    let infos = all.iter().filter(|record| record.severity == Severity::Info).count();
    let errors = all.iter().filter(|record| record.severity == Severity::Error).count();
    assert_eq!(infos, 2);
    assert_eq!(errors, 3);
}

#[test]
fn records_of_broken_output_are_still_written() {
    let all = records(&result(false, &[0xc3, b'\n', b'o', b'k'], &[0xff, 0xfe]));
    assert_eq!(all, vec![info("\u{fffd}"), info("ok"), error("\u{fffd}\u{fffd}")]);
}

#[test]
fn suppressed_run_writes_nothing() {
    let plan = plan_emission(Decision::Suppress, &result(true, b"noise\n", b"more noise\n"));
    assert!(!plan.terminal);
    assert!(!plan.log);
    assert!(plan.records.is_empty());
}

#[test]
fn terminal_only_plan() {
    let plan = plan_emission(Decision::TerminalOnly, &result(false, b"out\n", b"err\n"));
    assert_eq!(
        plan,
        EmissionPlan { terminal: true, log: false, records: vec![info("out"), error("err")] }
    );
}

#[test]
fn log_only_plan() {
    let plan = plan_emission(Decision::LogOnly, &result(true, b"out\n", b"err\n"));
    assert_eq!(
        plan,
        EmissionPlan { terminal: false, log: true, records: vec![info("out"), error("err")] }
    );
}

#[test]
fn terminal_and_log_plan() {
    let plan = plan_emission(Decision::TerminalAndLog, &result(false, b"out\n", b"err\n"));
    assert_eq!(
        plan,
        EmissionPlan { terminal: true, log: true, records: vec![info("out"), error("err")] }
    );
}

#[test]
fn plan_without_log_keeps_the_terminal() {
    let plan = plan_emission(Decision::TerminalAndLog, &result(false, b"out\n", b"err\n"));
    let rest = plan.without_log();
    assert_eq!(
        rest,
        EmissionPlan { terminal: true, log: false, records: vec![info("out"), error("err")] }
    );
    let plan = plan_emission(Decision::LogOnly, &result(true, b"out\n", b""));
    let rest = plan.without_log();
    assert!(!rest.terminal);
    assert!(!rest.log);
}

#[test]
fn run_is_planned_from_invocation_and_result() {
    let quiet = Invocation::new("true".to_string(), None, false).unwrap();
    let plan = plan_run(&quiet, &result(true, b"chatter\n", b""));
    assert_eq!(plan, EmissionPlan { terminal: false, log: false, records: vec![] });
    let plan = plan_run(&quiet, &result(false, b"chatter\n", b"oops\n"));
    assert_eq!(
        plan,
        EmissionPlan { terminal: true, log: false, records: vec![info("chatter"), error("oops")] }
    );
    let logged = Invocation::new("true".to_string(), Some(PathBuf::from("/tmp/j.log")), false)
        .unwrap();
    let plan = plan_run(&logged, &result(true, b"chatter\n", b""));
    assert_eq!(plan, EmissionPlan { terminal: false, log: true, records: vec![info("chatter")] });
}

#[test]
fn alert_flag_with_empty_stderr_still_reaches_the_terminal() {
    let alert = Invocation::new("true".to_string(), None, true).unwrap();
    let silent = result(true, b"", b"");
    assert_eq!(alert.resolve(&silent), Decision::TerminalOnly);
    let plan = plan_run(&alert, &silent);
    assert!(plan.terminal);
    assert!(!plan.log);
    assert!(plan.records.is_empty());
}
