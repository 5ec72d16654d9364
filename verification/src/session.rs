//! The session: input buffer, output log, history with its navigation cursor,
//! and the colour of ordinary output. Each event of the interactive loop is one
//! method; what the loop has to do next comes back as an [`Action`].

use crate::classifier::{
    classify, classify_spec, lemma_classification_ignores_blank_ends, Classification,
    ClassificationModel, ClassifiedCommand, CommandModel,
};
use crate::delegate::{delegate_message, DelegateError, DelegateErrorModel};
use crate::directory::{directory_message, DirectoryError, DirectoryErrorModel};
use crate::execution::{
    plan_execution, plan_spec, spawn_failure_message, ExecutionPlan, ExecutionResult,
    InvocationModel, OutcomeModel, PlanModel, ResultModel, ShellInvocation,
};
use crate::interpreter::{
    apply_events, dispatched, initial_state, interpret, output_line, Color,
};
use crate::output::{error_line, plain_line, LineModel, OutputLine};
use crate::text::{
    lemma_trimmed, starts_with, to_chars, trim, trim_end, trim_start, trimmed,
};
use vstd::prelude::*;
use vstd::string::*;

verus! {

broadcast use vstd::string::group_string_axioms;

/// What the interactive loop has to do after an event.
#[derive(Clone, Debug, PartialEq, Eq)]
pub enum Action {
    /// Nothing.
    Idle,
    /// End the process.
    Exit,
    /// Resolve this path, change to it, and report with
    /// [`Session::directory_changed`].
    ChangeDirectory(String),
    /// Ask the translator for a command for this text, and report with
    /// [`Session::delegate_finished`].
    Delegate(String),
    /// Run this invocation off the interactive thread, and deliver its result
    /// with [`Session::drain`].
    Spawn { command: String, invocation: ShellInvocation },
}

/// The mathematical value of an [`Action`].
pub enum ActionModel {
    Idle,
    Exit,
    ChangeDirectory(Seq<char>),
    Delegate(Seq<char>),
    Spawn { command: Seq<char>, invocation: InvocationModel },
}

impl View for Action {
    type V = ActionModel;

    open spec fn view(&self) -> ActionModel {
        match self {
            Action::Idle => ActionModel::Idle,
            Action::Exit => ActionModel::Exit,
            Action::ChangeDirectory(path) => ActionModel::ChangeDirectory(path@),
            Action::Delegate(text) => ActionModel::Delegate(text@),
            Action::Spawn { command, invocation } => ActionModel::Spawn {
                command: command@,
                invocation: invocation@,
            },
        }
    }
}

/// The mathematical value of a [`Session`].
pub struct SessionModel {
    /// The text in the input field.
    pub input: Seq<char>,
    /// The output log, oldest line first.
    pub output: Seq<LineModel>,
    /// The submitted lines, oldest first.
    pub history: Seq<Seq<char>>,
    /// The history entry that navigation stands on, if any.
    pub cursor: Option<int>,
    /// The colour of ordinary output.
    pub current_color: Color,
}

impl SessionModel {
    /// The cursor, when present, is an index into the history.
    pub open spec fn valid(self) -> bool {
        self.cursor matches Some(i) ==> 0 <= i < self.history.len()
    }
}

/// The state of one interactive session.
pub struct Session {
    input: String,
    output: Vec<OutputLine>,
    history: Vec<String>,
    history_index: Option<usize>,
    current_color: Color,
}

impl View for Session {
    type V = SessionModel;

    closed spec fn view(&self) -> SessionModel {
        SessionModel {
            input: self.input@,
            output: self.output.deep_view(),
            history: self.history.deep_view(),
            cursor: match self.history_index {
                Some(i) => Some(i as int),
                None => None,
            },
            current_color: self.current_color,
        }
    }
}

/// The state a session starts in: one line of greeting, nothing else.
pub open spec fn initial_session() -> SessionModel {
    SessionModel {
        input: Seq::empty(),
        output: seq![plain_line("Welcome to terminalAI! Type commands below."@)],
        history: Seq::empty(),
        cursor: None,
        current_color: Color::Gray,
    }
}

/// The state with one more line at the end of the log.
pub open spec fn logged(s: SessionModel, line: LineModel) -> SessionModel {
    SessionModel { output: s.output.push(line), ..s }
}

/// Carrying out a classified command: `clear` empties the log, by either way
/// it can arrive; the other commands leave the state and ask the loop to act.
pub open spec fn run_model(s: SessionModel, command: CommandModel) -> (SessionModel, ActionModel) {
    match command {
        CommandModel::BuiltinClear => (SessionModel { output: Seq::empty(), ..s }, ActionModel::Idle),
        CommandModel::BuiltinChangeDirectory(path) => (s, ActionModel::ChangeDirectory(path)),
        CommandModel::BuiltinExit => (s, ActionModel::Exit),
        CommandModel::ShellCommand(text) => match plan_spec(text) {
            PlanModel::ClearLog => (SessionModel { output: Seq::empty(), ..s }, ActionModel::Idle),
            PlanModel::Spawn(invocation) => (s, ActionModel::Spawn { command: text, invocation }),
        },
    }
}

/// Submitting a line: a blank line changes nothing; any other line is
/// recorded in the history, ends navigation, and is classified.
pub open spec fn submit_model(s: SessionModel, line: Seq<char>) -> (SessionModel, ActionModel) {
    let t = trimmed(line);
    if t.len() == 0 {
        (s, ActionModel::Idle)
    } else {
        let recorded = SessionModel { history: s.history.push(t), cursor: None, ..s };
        match classify_spec(line) {
            ClassificationModel::Resolved(command) => run_model(recorded, command),
            ClassificationModel::Delegate(text) => (recorded, ActionModel::Delegate(text)),
        }
    }
}

/// The end of a translator call: its command is run as a shell command; its
/// failure becomes one error line, and nothing is run.
pub open spec fn delegate_finished_model(
    s: SessionModel,
    outcome: Result<Seq<char>, DelegateErrorModel>,
) -> (SessionModel, ActionModel) {
    match outcome {
        Ok(command) => run_model(s, CommandModel::ShellCommand(command)),
        Err(error) => (
            logged(s, error_line("Error processing command: "@ + delegate_message(error))),
            ActionModel::Idle,
        ),
    }
}

/// The end of a directory change: one line that names the new directory, or
/// one error line.
pub open spec fn directory_changed_model(
    s: SessionModel,
    outcome: Result<Seq<char>, DirectoryErrorModel>,
) -> SessionModel {
    match outcome {
        Ok(directory) => logged(s, plain_line("Changed directory to "@ + directory)),
        Err(error) => logged(
            s,
            error_line("Error changing directory: "@ + directory_message(error)),
        ),
    }
}

/// The log line for one delivered result.
pub open spec fn result_line(result: ResultModel) -> LineModel {
    match result.outcome {
        OutcomeModel::Captured(text) => output_line(
            apply_events(initial_state(), dispatched(text)).text,
        ),
        OutcomeModel::SpawnFailure(reason) => error_line(
            "Error executing command: "@ + spawn_failure_message(reason),
        ),
    }
}

/// The colour of ordinary output after one delivered result: the colour its
/// text ends in, read from the default; the default for a failure.
pub open spec fn result_color(result: ResultModel) -> Color {
    match result.outcome {
        OutcomeModel::Captured(text) => apply_events(
            initial_state(),
            dispatched(text),
        ).current_color,
        OutcomeModel::SpawnFailure(reason) => Color::Gray,
    }
}

/// Taking in one delivered result.
pub open spec fn receive_model(s: SessionModel, result: ResultModel) -> SessionModel {
    SessionModel {
        output: s.output.push(result_line(result)),
        current_color: result_color(result),
        ..s
    }
}

/// Taking in the delivered results, in the order they arrived.
pub open spec fn drain_model(s: SessionModel, results: Seq<ResultModel>) -> SessionModel
    decreases results.len(),
{
    if results.len() == 0 {
        s
    } else {
        receive_model(drain_model(s, results.drop_last()), results.last())
    }
}

/// One step back in the history: from no cursor to the newest entry, else one
/// entry older, stopping at the oldest.
pub open spec fn history_up_model(s: SessionModel) -> SessionModel {
    if s.history.len() == 0 {
        s
    } else {
        let index = match s.cursor {
            Some(i) => if i > 0 {
                i - 1
            } else {
                0
            },
            None => s.history.len() - 1,
        };
        SessionModel { cursor: Some(index), input: s.history[index], ..s }
    }
}

/// One step forward in the history: to the next newer entry, or past the
/// newest to an empty input and no cursor.
pub open spec fn history_down_model(s: SessionModel) -> SessionModel {
    match s.cursor {
        Some(i) => if i + 1 < s.history.len() {
            SessionModel { cursor: Some(i + 1), input: s.history[i + 1], ..s }
        } else {
            SessionModel { cursor: None, input: Seq::empty(), ..s }
        },
        None => s,
    }
}

/// The entries that begin with `prefix`, in their order.
pub open spec fn matching_entries(prefix: Seq<char>, entries: Seq<Seq<char>>) -> Seq<Seq<char>> {
    entries.filter(|entry: Seq<char>| prefix.is_prefix_of(entry))
}

/// Completing the input against the candidates: a single candidate replaces
/// the input; none or several leave it.
pub open spec fn completed(s: SessionModel, candidates: Seq<Seq<char>>) -> SessionModel {
    if candidates.len() == 1 {
        SessionModel { input: candidates[0], ..s }
    } else {
        s
    }
}

/// Whether `input` asks for the home directory: a tilde alone, or a tilde
/// before a path separator.
pub open spec fn begins_with_home(input: Seq<char>) -> bool {
    input.len() > 0 && input[0] == '~' && (input.len() == 1 || input[1] == '/' || input[1]
        == '\\')
}

/// What a tilde expansion of `input` can be: the input itself, or, where the
/// input asks for the home directory, some directory in place of the tilde.
pub open spec fn tilde_outcome(input: Seq<char>, expanded: Seq<char>) -> bool {
    if begins_with_home(input) {
        expanded == input || input.skip(1).is_suffix_of(expanded)
    } else {
        expanded == input
    }
}

/// Expands a leading tilde with `shellexpand::tilde`. That function replaces
/// the tilde by the home directory where the tilde stands alone or before a
/// path separator and a home directory is known, and hands every other input
/// back as it is. Which directory that is depends on the environment, so the
/// contract only bounds the result.
#[verifier::external_body]
fn expand_tilde(input: &str) -> (expanded: String)
    ensures
        tilde_outcome(input@, expanded@),
{
    shellexpand::tilde(input).into_owned()
}

proof fn lemma_entries_push(entries: Vec<String>, before: Seq<Seq<char>>, entry: Seq<char>)
    requires
        entries@.len() > 0,
        entries@.last()@ == entry,
        entries@.drop_last().len() == before.len(),
        forall|i: int| 0 <= i < before.len() ==> (#[trigger] entries@[i])@ == before[i],
    ensures
        entries.deep_view() == before.push(entry),
{
    assert(entries.deep_view() =~= before.push(entry));
}

impl Session {
    #[verifier::type_invariant]
    spec fn cursor_in_history(self) -> bool {
        self.history_index matches Some(i) ==> i < self.history@.len()
    }

    /// A session at its start.
    pub fn new() -> (session: Session)
        ensures
            session@ == initial_session(),
    {
        let greeting = OutputLine {
            text: "Welcome to terminalAI! Type commands below.".to_owned(),
            is_error: false,
        };
        let session = Session {
            input: String::new(),
            output: vec![greeting],
            history: Vec::new(),
            history_index: None,
            current_color: Color::Gray,
        };
        assert(session@.output =~= initial_session().output);
        assert(session@.history =~= initial_session().history);
        session
    }

    /// The text in the input field.
    pub fn input(&self) -> (text: &str)
        ensures
            text@ == self@.input,
    {
        self.input.as_str()
    }

    /// Replaces the text in the input field.
    pub fn set_input(&mut self, text: String)
        ensures
            final(self)@ == (SessionModel { input: text@, ..old(self)@ }),
    {
        proof {
            use_type_invariant(&*self);
        }
        self.input = text;
    }

    /// The output log, oldest line first.
    pub fn output(&self) -> (lines: &Vec<OutputLine>)
        ensures
            lines.deep_view() == self@.output,
    {
        &self.output
    }

    /// The submitted lines, oldest first.
    pub fn history(&self) -> (lines: &Vec<String>)
        ensures
            lines.deep_view() == self@.history,
    {
        &self.history
    }

    /// The history entry that navigation stands on, if any. It is always an
    /// index into the history.
    pub fn history_index(&self) -> (index: Option<usize>)
        ensures
            self@.valid(),
            match index {
                Some(i) => self@.cursor == Some(i as int),
                None => self@.cursor is None,
            },
    {
        proof {
            use_type_invariant(self);
        }
        self.history_index
    }

    /// The colour of ordinary output.
    pub fn current_color(&self) -> (color: Color)
        ensures
            color == self@.current_color,
    {
        self.current_color
    }

    fn log(&mut self, line: OutputLine)
        ensures
            final(self)@ == logged(old(self)@, line@),
    {
        proof {
            use_type_invariant(&*self);
        }
        let mut output: Vec<OutputLine> = Vec::new();
        core::mem::swap(&mut self.output, &mut output);
        output.push(line);
        self.output = output;
        assert(self@.output =~= old(self)@.output.push(line@));
    }

    fn clear_log(&mut self)
        ensures
            final(self)@ == (SessionModel { output: Seq::empty(), ..old(self)@ }),
    {
        proof {
            use_type_invariant(&*self);
        }
        self.output = Vec::new();
        assert(self@.output =~= Seq::<LineModel>::empty());
    }

    /// Appends one ordinary line to the log, such as the echo of a submitted
    /// line.
    pub fn echo(&mut self, text: &str)
        ensures
            final(self)@ == logged(old(self)@, plain_line(text@)),
    {
        self.log(OutputLine { text: text.to_owned(), is_error: false });
    }

    /// Carries out a classified command.
    pub fn run(&mut self, command: ClassifiedCommand) -> (action: Action)
        ensures
            (final(self)@, action@) == run_model(old(self)@, command@),
    {
        match command {
            ClassifiedCommand::BuiltinClear => {
                self.clear_log();
                Action::Idle
            },
            ClassifiedCommand::BuiltinChangeDirectory(path) => Action::ChangeDirectory(path),
            ClassifiedCommand::BuiltinExit => Action::Exit,
            ClassifiedCommand::ShellCommand(text) => match plan_execution(text.as_str()) {
                ExecutionPlan::ClearLog => {
                    self.clear_log();
                    Action::Idle
                },
                ExecutionPlan::Spawn(invocation) => Action::Spawn { command: text, invocation },
            },
        }
    }

    /// Takes one submitted line.
    pub fn submit(&mut self, line: &str) -> (action: Action)
        ensures
            (final(self)@, action@) == submit_model(old(self)@, line@),
    {
        let t = trim(line);
        if t.is_empty() {
            return Action::Idle;
        }
        proof {
            use_type_invariant(&*self);
        }
        self.history_index = None;
        let mut history: Vec<String> = Vec::new();
        core::mem::swap(&mut self.history, &mut history);
        history.push(t.to_owned());
        self.history = history;
        assert(self@.history =~= old(self)@.history.push(t@));
        match classify(line) {
            Classification::Resolved(command) => self.run(command),
            Classification::Delegate(text) => Action::Delegate(text),
        }
    }

    /// Takes the end of a translator call.
    pub fn delegate_finished(&mut self, outcome: Result<String, DelegateError>) -> (action: Action)
        ensures
            (final(self)@, action@) == delegate_finished_model(
                old(self)@,
                crate::delegate::outcome_view(outcome),
            ),
    {
        match outcome {
            Ok(command) => self.run(ClassifiedCommand::ShellCommand(command)),
            Err(error) => {
                let text = "Error processing command: ".to_owned().concat(error.message().as_str());
                self.log(OutputLine { text, is_error: true });
                Action::Idle
            },
        }
    }

    /// Takes the end of a directory change: the new working directory, or the
    /// reason why it stayed as it was.
    pub fn directory_changed(&mut self, outcome: Result<String, DirectoryError>)
        ensures
            final(self)@ == directory_changed_model(
                old(self)@,
                crate::directory::outcome_view(outcome),
            ),
    {
        match outcome {
            Ok(directory) => {
                let text = "Changed directory to ".to_owned().concat(directory.as_str());
                self.log(OutputLine { text, is_error: false });
            },
            Err(error) => {
                let text = "Error changing directory: ".to_owned().concat(error.message().as_str());
                self.log(OutputLine { text, is_error: true });
            },
        }
    }

    fn take_in(&mut self, result: &ExecutionResult)
        ensures
            final(self)@ == receive_model(old(self)@, result@),
    {
        proof {
            use_type_invariant(&*self);
        }
        match &result.outcome {
            Ok(output) => {
                let end = interpret(output.text.as_str());
                self.current_color = end.current_color;
                self.log(end.into_line());
            },
            Err(error) => {
                let text = "Error executing command: ".to_owned().concat(error.message().as_str());
                self.current_color = Color::Gray;
                self.log(OutputLine { text, is_error: true });
            },
        }
    }

    /// Takes in one delivered result: its text is read by a fresh interpreter
    /// and becomes one line; a failure to start becomes one error line.
    pub fn receive(&mut self, result: ExecutionResult)
        ensures
            final(self)@ == receive_model(old(self)@, result@),
    {
        self.take_in(&result);
    }

    /// Takes in all results that were delivered since the last call, in the
    /// order they arrived.
    pub fn drain(&mut self, results: Vec<ExecutionResult>)
        ensures
            final(self)@ == drain_model(old(self)@, results.deep_view()),
    {
        let n: usize = results.len();
        let mut i: usize = 0;
        while i < n
            invariant
                i <= n == results@.len(),
                self@ == drain_model(old(self)@, results.deep_view().take(i as int)),
            decreases n - i,
        {
            proof {
                let upto = results.deep_view().take(i + 1);
                assert(upto.drop_last() =~= results.deep_view().take(i as int));
                assert(upto.last() == results@[i as int]@);
            }
            self.take_in(&results[i]);
            i = i + 1;
        }
        assert(results.deep_view().take(n as int) =~= results.deep_view());
    }

    /// Recalls the next older history entry into the input field.
    pub fn history_up(&mut self)
        ensures
            final(self)@ == history_up_model(old(self)@),
    {
        proof {
            use_type_invariant(&*self);
        }
        let n: usize = self.history.len();
        if n > 0 {
            let index: usize = match self.history_index {
                Some(i) => if i > 0 {
                    i - 1
                } else {
                    0
                },
                None => n - 1,
            };
            let entry = self.history[index].clone();
            self.history_index = Some(index);
            self.input = entry;
        }
    }

    /// Recalls the next newer history entry into the input field, or leaves
    /// the history with an empty input.
    pub fn history_down(&mut self)
        ensures
            final(self)@ == history_down_model(old(self)@),
    {
        proof {
            use_type_invariant(&*self);
        }
        let n: usize = self.history.len();
        match self.history_index {
            Some(i) => {
                if i + 1 < n {
                    let entry = self.history[i + 1].clone();
                    self.history_index = Some(i + 1);
                    self.input = entry;
                } else {
                    self.history_index = None;
                    self.input = String::new();
                }
            },
            None => {},
        }
    }

    /// Completes the input against the names in `entries` that begin with
    /// `prefix`, and returns those names: a single one replaces the input.
    /// Nothing else of the session changes.
    pub fn complete_with(&mut self, prefix: &str, entries: &Vec<String>) -> (candidates: Vec<String>)
        ensures
            candidates.deep_view() == matching_entries(prefix@, entries.deep_view()),
            final(self)@ == completed(old(self)@, candidates.deep_view()),
    {
        proof {
            use_type_invariant(&*self);
        }
        let wanted = to_chars(prefix);
        let mut candidates: Vec<String> = Vec::new();
        let ghost keep = |entry: Seq<char>| prefix@.is_prefix_of(entry);
        let n: usize = entries.len();
        let mut i: usize = 0;
        proof {
            reveal(Seq::filter);
            assert(entries.deep_view().take(0) =~= Seq::<Seq<char>>::empty());
            assert(candidates.deep_view() =~= Seq::<Seq<char>>::empty());
        }
        while i < n
            invariant
                i <= n == entries@.len(),
                wanted@ == prefix@,
                keep == |entry: Seq<char>| prefix@.is_prefix_of(entry),
                candidates.deep_view() == entries.deep_view().take(i as int).filter(keep),
            decreases n - i,
        {
            let ghost before = candidates.deep_view();
            let name = to_chars(entries[i].as_str());
            proof {
                reveal(Seq::filter);
                let upto = entries.deep_view().take(i + 1);
                assert(upto.drop_last() =~= entries.deep_view().take(i as int));
                assert(upto.last() == entries@[i as int]@);
            }
            if starts_with(&name, &wanted) {
                candidates.push(entries[i].clone());
                proof {
                    lemma_entries_push(candidates, before, entries@[i as int]@);
                }
            }
            i = i + 1;
        }
        assert(entries.deep_view().take(n as int) =~= entries.deep_view());
        if candidates.len() == 1 {
            assert(candidates.deep_view()[0] == candidates@[0]@);
            self.input = candidates[0].clone();
        }
        candidates
    }

    /// Completes the input against the names in `entries`, after expanding a
    /// leading tilde of the trimmed input, and returns the names that match.
    /// A blank input is left alone. Where the input does not ask for the home
    /// directory, the prefix that is looked for is the trimmed input itself.
    pub fn complete_input(&mut self, entries: &Vec<String>) -> (candidates: Vec<String>)
        ensures
            trimmed(old(self)@.input).len() == 0 ==> final(self)@ == old(self)@
                && candidates@.len() == 0,
            trimmed(old(self)@.input).len() > 0 ==> exists|prefix: Seq<char>|
                {
                    &&& #[trigger] tilde_outcome(trimmed(old(self)@.input), prefix)
                    &&& candidates.deep_view() == matching_entries(prefix, entries.deep_view())
                    &&& final(self)@ == completed(old(self)@, candidates.deep_view())
                },
            trimmed(old(self)@.input).len() > 0 && !begins_with_home(trimmed(old(self)@.input))
                ==> candidates.deep_view() == matching_entries(
                trimmed(old(self)@.input),
                entries.deep_view(),
            ),
    {
        let typed = self.input.clone();
        let t = trim(typed.as_str());
        if t.is_empty() {
            return Vec::new();
        }
        let prefix = expand_tilde(t);
        self.complete_with(prefix.as_str(), entries)
    }
}

/// Every event keeps the cursor, when present, an index into the history.
pub proof fn lemma_events_keep_cursor_valid(
    s: SessionModel,
    line: Seq<char>,
    command: CommandModel,
    translated: Result<Seq<char>, DelegateErrorModel>,
    changed: Result<Seq<char>, DirectoryErrorModel>,
    results: Seq<ResultModel>,
    candidates: Seq<Seq<char>>,
)
    requires
        s.valid(),
    ensures
        initial_session().valid(),
        run_model(s, command).0.valid(),
        submit_model(s, line).0.valid(),
        delegate_finished_model(s, translated).0.valid(),
        directory_changed_model(s, changed).valid(),
        drain_model(s, results).valid(),
        history_up_model(s).valid(),
        history_down_model(s).valid(),
        completed(s, candidates).valid(),
{
    lemma_drain_appends(s, results);
}

/// Draining appends exactly one line per result, in the order of arrival, and
/// touches neither the input nor the history.
pub proof fn lemma_drain_appends(s: SessionModel, results: Seq<ResultModel>)
    ensures
        drain_model(s, results).output == s.output + results.map_values(
            |r: ResultModel| result_line(r),
        ),
        drain_model(s, results).input == s.input,
        drain_model(s, results).history == s.history,
        drain_model(s, results).cursor == s.cursor,
    decreases results.len(),
{
    let line_of = |r: ResultModel| result_line(r);
    if results.len() == 0 {
        assert(s.output + results.map_values(line_of) =~= s.output);
    } else {
        lemma_drain_appends(s, results.drop_last());
        assert(results.drop_last().map_values(line_of) =~= results.map_values(line_of).drop_last());
        assert((s.output + results.drop_last().map_values(line_of)).push(
            result_line(results.last()),
        ) =~= s.output + results.map_values(line_of));
    }
}

/// Draining in several turns gives what draining all results in one turn
/// gives.
pub proof fn lemma_drain_splits(s: SessionModel, first: Seq<ResultModel>, second: Seq<ResultModel>)
    ensures
        drain_model(s, first + second) == drain_model(drain_model(s, first), second),
    decreases second.len(),
{
    if second.len() == 0 {
        assert(first + second =~= first);
    } else {
        lemma_drain_splits(s, first, second.drop_last());
        assert((first + second).drop_last() =~= first + second.drop_last());
        assert((first + second).last() == second.last());
    }
}

/// The history is only ever appended to: every event leaves it as it was or
/// adds the submitted line at its end.
pub proof fn lemma_history_is_append_only(
    s: SessionModel,
    line: Seq<char>,
    command: CommandModel,
    translated: Result<Seq<char>, DelegateErrorModel>,
    changed: Result<Seq<char>, DirectoryErrorModel>,
    results: Seq<ResultModel>,
    candidates: Seq<Seq<char>>,
)
    ensures
        submit_model(s, line).0.history == s.history || submit_model(s, line).0.history
            == s.history.push(trimmed(line)),
        run_model(s, command).0.history == s.history,
        delegate_finished_model(s, translated).0.history == s.history,
        directory_changed_model(s, changed).history == s.history,
        drain_model(s, results).history == s.history,
        history_up_model(s).history == s.history,
        history_down_model(s).history == s.history,
        completed(s, candidates).history == s.history,
{
    lemma_drain_appends(s, results);
}

/// Of two commands in flight, the one that completes first is logged first,
/// whichever was dispatched first; both are logged once.
pub proof fn lemma_completion_order_is_log_order(
    s: SessionModel,
    earlier: ResultModel,
    later: ResultModel,
)
    ensures
        drain_model(s, seq![earlier, later]).output == s.output.push(result_line(earlier)).push(
            result_line(later),
        ),
        drain_model(drain_model(s, seq![earlier]), seq![later]) == drain_model(
            s,
            seq![earlier, later],
        ),
{
    reveal_with_fuel(drain_model, 3);
    let both = seq![earlier, later];
    assert(both.drop_last() =~= seq![earlier]);
    assert(seq![earlier].drop_last() =~= Seq::<ResultModel>::empty());
    assert(seq![later].drop_last() =~= Seq::<ResultModel>::empty());
    assert(drain_model(s, seq![earlier]) == receive_model(s, earlier));
    assert(drain_model(s, both) == receive_model(receive_model(s, earlier), later));
    let mid = drain_model(s, seq![earlier]);
    assert(drain_model(mid, seq![later]) == receive_model(mid, later));
}

/// A submission does not depend on the blanks around the line.
pub proof fn lemma_submission_ignores_blank_ends(s: SessionModel, line: Seq<char>)
    ensures
        submit_model(s, trimmed(line)) == submit_model(s, line),
{
    lemma_trimmed(line);
    lemma_classification_ignores_blank_ends(line);
}

/// `s` after `count` submissions of `line`.
pub open spec fn submitted_repeatedly(s: SessionModel, line: Seq<char>, count: nat) -> SessionModel
    decreases count,
{
    if count == 0 {
        s
    } else {
        submit_model(submitted_repeatedly(s, line, (count - 1) as nat), line).0
    }
}

/// Submitting `clear`, with or without blanks around it, empties the log and
/// asks for nothing, as often as it is done.
pub proof fn lemma_clear_empties_log(s: SessionModel, line: Seq<char>, count: nat)
    requires
        trimmed(line) == "clear"@,
        count > 0,
    ensures
        submitted_repeatedly(s, line, count).output == Seq::<LineModel>::empty(),
        submit_model(submitted_repeatedly(s, line, (count - 1) as nat), line).1
            == ActionModel::Idle,
{
    reveal_strlit("clear");
}

/// The line `clear` is its own trimmed form, so the law above holds of it.
pub proof fn lemma_clear_is_trimmed()
    ensures
        trimmed("clear"@) == "clear"@,
{
    reveal_strlit("clear");
    let line = "clear"@;
    assert(line[0] == 'c' && line.last() == 'r');
    assert(trim_start(line) == line);
    assert(trim_end(line) == line);
}

/// A failed directory change appends exactly one error line and changes
/// nothing else of the session.
pub proof fn lemma_failed_directory_change(s: SessionModel, error: DirectoryErrorModel)
    ensures
        ({
            let after = directory_changed_model(
                s,
                Err::<Seq<char>, DirectoryErrorModel>(error),
            );
            &&& after.output.len() == s.output.len() + 1
            &&& after.output.drop_last() == s.output
            &&& after.output.last().is_error
            &&& after == SessionModel { output: after.output, ..s }
        }),
{
    let after = directory_changed_model(s, Err::<Seq<char>, DirectoryErrorModel>(error));
    assert(after.output.drop_last() =~= s.output);
}

/// A failed translator call appends exactly one error line, changes nothing
/// else of the session, and starts no process.
pub proof fn lemma_failed_delegate(s: SessionModel, error: DelegateErrorModel)
    ensures
        ({
            let (after, action) = delegate_finished_model(
                s,
                Err::<Seq<char>, DelegateErrorModel>(error),
            );
            &&& action == ActionModel::Idle
            &&& after.output.len() == s.output.len() + 1
            &&& after.output.drop_last() == s.output
            &&& after.output.last().is_error
            &&& after == SessionModel { output: after.output, ..s }
        }),
{
    let (after, action) = delegate_finished_model(s, Err::<Seq<char>, DelegateErrorModel>(error));
    assert(after.output.drop_last() =~= s.output);
}

/// Navigation and completion touch the input and the cursor only.
pub proof fn lemma_navigation_leaves_log_alone(s: SessionModel, candidates: Seq<Seq<char>>)
    ensures
        history_up_model(s).output == s.output,
        history_up_model(s).history == s.history,
        history_down_model(s).output == s.output,
        history_down_model(s).history == s.history,
        completed(s, candidates).output == s.output,
        completed(s, candidates).history == s.history,
        completed(s, candidates).cursor == s.cursor,
{
}

} // verus!
