use rcronic::emit::{plan_run, EmissionPlan, Record, Severity};
use rcronic::outcome::{conclude_emission, exit_code, RunError};
use rcronic::run::{shell_argv, ExecutionResult, Invocation};
use rcronic::Decision;
use std::path::PathBuf;

fn execute(invocation: &Invocation) -> ExecutionResult {
    let argv = shell_argv(invocation.command());
    let output = duct::cmd(&argv[0], &argv[1..])
        .stdout_capture()
        .stderr_capture()
        .unchecked()
        .run()
        .unwrap();
    ExecutionResult::from_exit_code(output.status.code(), output.stdout, output.stderr)
}

fn exit_after_clean_emission() -> u8 {
    exit_code(&conclude_emission(None, None).map_err(RunError::Emit))
}

fn log_path() -> Option<PathBuf> {
    Some(PathBuf::from("/tmp/j.log"))
}

#[test]
fn run_of_true_writes_nothing() {
    let invocation = Invocation::new("true".to_string(), None, false).unwrap();
    let result = execute(&invocation);
    assert!(result.success);
    assert_eq!(invocation.resolve(&result), Decision::Suppress);
    let plan = plan_run(&invocation, &result);
    assert_eq!(plan, EmissionPlan { terminal: false, log: false, records: vec![] });
    assert_eq!(exit_after_clean_emission(), 0);
}

#[test]
fn run_of_failing_command_reaches_the_terminal() {
    let invocation = Invocation::new("exit 1".to_string(), None, false).unwrap();
    let result = execute(&invocation);
    assert!(!result.success);
    assert_eq!(invocation.resolve(&result), Decision::TerminalOnly);
    let plan = plan_run(&invocation, &result);
    assert!(plan.terminal);
    assert!(!plan.log);
    assert!(plan.records.iter().all(|record| record.severity != Severity::Info));
    assert_eq!(exit_after_clean_emission(), 0);
}

#[test]
fn run_with_alert_flag_shows_stderr_of_a_success() {
    let invocation = Invocation::new("echo hi 1>&2".to_string(), None, true).unwrap();
    let result = execute(&invocation);
    assert!(result.success);
    assert_eq!(invocation.resolve(&result), Decision::TerminalOnly);
    let plan = plan_run(&invocation, &result);
    assert_eq!(
        plan,
        EmissionPlan {
            terminal: true,
            log: false,
            records: vec![Record::new(Severity::Error, "hi".to_string())],
        }
    );
}

#[test]
fn run_of_success_with_log_goes_to_the_log_alone() {
    let invocation = Invocation::new("echo ok".to_string(), log_path(), false).unwrap();
    let result = execute(&invocation);
    assert!(result.success);
    assert_eq!(invocation.resolve(&result), Decision::LogOnly);
    let plan = plan_run(&invocation, &result);
    assert_eq!(
        plan,
        EmissionPlan {
            terminal: false,
            log: true,
            records: vec![Record::new(Severity::Info, "ok".to_string())],
        }
    );
    let again = plan_run(&invocation, &execute(&invocation));
    assert_eq!(again, plan);
}

#[test]
fn run_of_failure_with_log_goes_to_both() {
    let invocation = Invocation::new("exit 2".to_string(), log_path(), false).unwrap();
    let result = execute(&invocation);
    assert!(!result.success);
    assert_eq!(invocation.resolve(&result), Decision::TerminalAndLog);
    let plan = plan_run(&invocation, &result);
    assert_eq!(plan, EmissionPlan { terminal: true, log: true, records: vec![] });
    assert_eq!(exit_after_clean_emission(), 0);
}

#[test]
fn run_keeps_shell_syntax() {
    let invocation = Invocation::new(
        "printf 'a\\nb\\n' | tr a-z A-Z; echo late 1>&2; exit 3".to_string(),
        None,
        false,
    )
    .unwrap();
    let result = execute(&invocation);
    assert_eq!(
        result,
        ExecutionResult { success: false, stdout: b"A\nB\n".to_vec(), stderr: b"late\n".to_vec() }
    );
    let plan = plan_run(&invocation, &result);
    assert_eq!(
        plan.records,
        vec![
            Record::new(Severity::Info, "A".to_string()),
            Record::new(Severity::Info, "B".to_string()),
            Record::new(Severity::Error, "late".to_string()),
        ]
    );
}
