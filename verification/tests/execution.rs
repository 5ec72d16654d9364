use terminal_ai::execution::{
    capture_output, execution_outcome, plan_execution, shell_invocation, CapturedOutput,
    ExecutionError, ExecutionPlan, ProcessRun, ShellInvocation,
};

fn sh(command: &str) -> ShellInvocation {
    ShellInvocation {
        program: "sh".to_string(),
        arguments: vec!["-c".to_string(), command.to_string()],
        environment: vec![("TERM".to_string(), "xterm-256color".to_string())],
    }
}

#[test]
fn a_command_runs_through_the_shell() {
    assert_eq!(shell_invocation("ls -la | wc -l"), sh("ls -la | wc -l"));
}

#[test]
fn the_command_is_passed_as_written() {
    assert_eq!(shell_invocation("  echo hi  "), sh("  echo hi  "));
    assert_eq!(plan_execution("  echo hi  "), ExecutionPlan::Spawn(sh("  echo hi  ")));
}

#[test]
fn clear_starts_no_process() {
    assert_eq!(plan_execution("clear"), ExecutionPlan::ClearLog);
    assert_eq!(plan_execution("  clear\n"), ExecutionPlan::ClearLog);
}

#[test]
fn only_the_literal_clear_is_special() {
    assert_eq!(plan_execution("clear all"), ExecutionPlan::Spawn(sh("clear all")));
    assert_eq!(plan_execution(""), ExecutionPlan::Spawn(sh("")));
}

#[test]
fn success_reports_standard_output_only() {
    assert_eq!(capture_output(true, "out\n", "warning\n").text, "out\n");
}

#[test]
fn failure_reports_both_streams() {
    assert_eq!(capture_output(false, "out\n", "err\n").text, "out\nerr\n");
    assert_eq!(capture_output(false, "", "err").text, "err");
    assert_eq!(capture_output(false, "", "").text, "");
}

#[test]
fn spawn_failure_has_its_text() {
    assert_eq!(
        ExecutionError::SpawnFailure("sh: not found".to_string()).message(),
        "Failed to execute command: sh: not found"
    );
}

#[test]
fn a_process_that_did_not_start_is_a_spawn_failure() {
    assert_eq!(
        execution_outcome(ProcessRun::NotStarted("sh: not found".to_string())),
        Err(ExecutionError::SpawnFailure("sh: not found".to_string()))
    );
}

#[test]
fn a_failed_exit_is_no_execution_error() {
    let run = ProcessRun::Finished {
        success: false,
        stdout: "partial\n".to_string(),
        stderr: "ls: no such file\n".to_string(),
    };
    assert_eq!(
        execution_outcome(run),
        Ok(CapturedOutput { text: "partial\nls: no such file\n".to_string() })
    );
}

#[test]
fn a_successful_exit_yields_standard_output() {
    let run = ProcessRun::Finished {
        success: true,
        stdout: "done\n".to_string(),
        stderr: "note\n".to_string(),
    };
    assert_eq!(execution_outcome(run), Ok(CapturedOutput { text: "done\n".to_string() }));
}
