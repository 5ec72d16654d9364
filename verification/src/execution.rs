//! What it takes to run a command and what its captured streams amount to.
//! Starting the process is the caller's business; the invocation it starts and
//! the text it reports are fixed here.

use crate::text::{str_eq, trim, trimmed};
use vstd::prelude::*;
use vstd::string::*;

verus! {

broadcast use vstd::string::group_string_axioms;

/// A process to start: a program, its arguments, and the environment
/// variables set for it on top of the inherited ones.
#[derive(Clone, Debug, PartialEq, Eq)]
pub struct ShellInvocation {
    pub program: String,
    pub arguments: Vec<String>,
    pub environment: Vec<(String, String)>,
}

/// The mathematical value of a [`ShellInvocation`].
pub struct InvocationModel {
    pub program: Seq<char>,
    pub arguments: Seq<Seq<char>>,
    pub environment: Seq<(Seq<char>, Seq<char>)>,
}

impl View for ShellInvocation {
    type V = InvocationModel;

    open spec fn view(&self) -> InvocationModel {
        InvocationModel {
            program: self.program@,
            arguments: self.arguments.deep_view(),
            environment: self.environment.deep_view(),
        }
    }
}

/// How a command is carried out.
#[derive(Clone, Debug, PartialEq, Eq)]
pub enum ExecutionPlan {
    /// Empty the output log at once; no process is started.
    ClearLog,
    /// Start this process off the interactive thread.
    Spawn(ShellInvocation),
}

/// The mathematical value of an [`ExecutionPlan`].
pub enum PlanModel {
    ClearLog,
    Spawn(InvocationModel),
}

impl View for ExecutionPlan {
    type V = PlanModel;

    open spec fn view(&self) -> PlanModel {
        match self {
            ExecutionPlan::ClearLog => PlanModel::ClearLog,
            ExecutionPlan::Spawn(invocation) => PlanModel::Spawn(invocation@),
        }
    }
}

/// What a finished command printed.
#[derive(Clone, Debug, PartialEq, Eq)]
pub struct CapturedOutput {
    pub text: String,
}

/// Why a command gave no output at all.
#[derive(Clone, Debug, PartialEq, Eq)]
pub enum ExecutionError {
    /// The process could not be started; holds a description of the failure.
    SpawnFailure(String),
}

/// One finished dispatch: the command and how it ended. It is made once, handed
/// over by value and consumed.
#[derive(Debug, PartialEq, Eq)]
pub struct ExecutionResult {
    pub command: String,
    pub outcome: Result<CapturedOutput, ExecutionError>,
}

/// The mathematical value of a dispatch's end: the captured text, or the
/// description of the failure to start.
pub enum OutcomeModel {
    Captured(Seq<char>),
    SpawnFailure(Seq<char>),
}

/// The mathematical value of an [`ExecutionResult`].
pub struct ResultModel {
    pub command: Seq<char>,
    pub outcome: OutcomeModel,
}

/// The mathematical value of a dispatch's end.
pub open spec fn outcome_view(outcome: Result<CapturedOutput, ExecutionError>) -> OutcomeModel {
    match outcome {
        Ok(output) => OutcomeModel::Captured(output.text@),
        Err(ExecutionError::SpawnFailure(reason)) => OutcomeModel::SpawnFailure(reason@),
    }
}

impl View for ExecutionResult {
    type V = ResultModel;

    open spec fn view(&self) -> ResultModel {
        ResultModel { command: self.command@, outcome: outcome_view(self.outcome) }
    }
}

impl DeepView for ExecutionResult {
    type V = ResultModel;

    open spec fn deep_view(&self) -> ResultModel {
        self@
    }
}

/// How an attempt to run a process ended, as the caller observed it.
#[derive(Clone, Debug, PartialEq, Eq)]
pub enum ProcessRun {
    /// The process could not be started; holds a description of the failure.
    NotStarted(String),
    /// The process ran to its end: whether it exited with success, and what
    /// it wrote to its two streams.
    Finished { success: bool, stdout: String, stderr: String },
}

/// The mathematical value of a [`ProcessRun`].
pub enum RunModel {
    NotStarted(Seq<char>),
    Finished { success: bool, stdout: Seq<char>, stderr: Seq<char> },
}

impl View for ProcessRun {
    type V = RunModel;

    open spec fn view(&self) -> RunModel {
        match self {
            ProcessRun::NotStarted(reason) => RunModel::NotStarted(reason@),
            ProcessRun::Finished { success, stdout, stderr } => RunModel::Finished {
                success: *success,
                stdout: stdout@,
                stderr: stderr@,
            },
        }
    }
}

/// `sh -c <command>` with `TERM=xterm-256color`.
pub open spec fn shell_invocation_spec(command: Seq<char>) -> InvocationModel {
    InvocationModel {
        program: "sh"@,
        arguments: seq!["-c"@, command],
        environment: seq![("TERM"@, "xterm-256color"@)],
    }
}

/// How `command` is carried out: the literal `clear` empties the log, anything
/// else goes to the shell as it was written.
pub open spec fn plan_spec(command: Seq<char>) -> PlanModel {
    if trimmed(command) == "clear"@ {
        PlanModel::ClearLog
    } else {
        PlanModel::Spawn(shell_invocation_spec(command))
    }
}

/// The text reported for a finished process: its standard output, followed by
/// its standard error when it exited with a failure.
pub open spec fn captured_text(success: bool, stdout: Seq<char>, stderr: Seq<char>) -> Seq<char> {
    if success {
        stdout
    } else {
        stdout + stderr
    }
}

/// What an attempt to run a process amounts to: only a process that did not
/// start is a failure; one that exited with a failure still yields its text.
pub open spec fn execution_outcome_spec(run: RunModel) -> OutcomeModel {
    match run {
        RunModel::NotStarted(reason) => OutcomeModel::SpawnFailure(reason),
        RunModel::Finished { success, stdout, stderr } => OutcomeModel::Captured(
            captured_text(success, stdout, stderr),
        ),
    }
}

/// The text shown to the user for a command that could not be started.
pub open spec fn spawn_failure_message(reason: Seq<char>) -> Seq<char> {
    "Failed to execute command: "@ + reason
}

/// The shell invocation that runs `command`.
pub fn shell_invocation(command: &str) -> (invocation: ShellInvocation)
    ensures
        invocation@ == shell_invocation_spec(command@),
{
    let arguments: Vec<String> = vec!["-c".to_owned(), command.to_owned()];
    let environment: Vec<(String, String)> = vec![("TERM".to_owned(), "xterm-256color".to_owned())];
    let invocation = ShellInvocation { program: "sh".to_owned(), arguments, environment };
    assert(invocation.arguments.deep_view() =~= shell_invocation_spec(command@).arguments);
    assert(invocation.environment.deep_view() =~= shell_invocation_spec(command@).environment);
    invocation
}

/// Decides how `command` is carried out.
pub fn plan_execution(command: &str) -> (plan: ExecutionPlan)
    ensures
        plan@ == plan_spec(command@),
{
    if str_eq(trim(command), "clear") {
        ExecutionPlan::ClearLog
    } else {
        ExecutionPlan::Spawn(shell_invocation(command))
    }
}

/// Builds the captured output of a process that ran to its end.
pub fn capture_output(success: bool, stdout: &str, stderr: &str) -> (output: CapturedOutput)
    ensures
        output.text@ == captured_text(success, stdout@, stderr@),
{
    if success {
        CapturedOutput { text: stdout.to_owned() }
    } else {
        CapturedOutput { text: stdout.to_owned().concat(stderr) }
    }
}

/// Decides what an attempt to run a process amounts to.
pub fn execution_outcome(run: ProcessRun) -> (outcome: Result<CapturedOutput, ExecutionError>)
    ensures
        outcome_view(outcome) == execution_outcome_spec(run@),
{
    match run {
        ProcessRun::NotStarted(reason) => Err(ExecutionError::SpawnFailure(reason)),
        ProcessRun::Finished { success, stdout, stderr } => Ok(
            capture_output(success, stdout.as_str(), stderr.as_str()),
        ),
    }
}

impl ExecutionError {
    /// The text shown to the user for this failure.
    pub fn message(&self) -> (text: String)
        ensures
            self matches ExecutionError::SpawnFailure(reason) && text@ == spawn_failure_message(
                reason@,
            ),
    {
        match self {
            ExecutionError::SpawnFailure(reason) => "Failed to execute command: ".to_owned().concat(
                reason.as_str(),
            ),
        }
    }
}

} // verus!
