//! The control-sequence interpreter: turns the captured output of one command
//! into plain text and a foreground colour.
//!
//! The byte stream is cut into terminal events by the `vte` parser; what each
//! event does to the text and the colour is decided, and verified, here.

use crate::output::{plain_line, LineModel, OutputLine};
use vstd::prelude::*;
use vstd::slice::slice_to_vec;
use vstd::string::*;

verus! {

broadcast use vstd::string::group_string_axioms;

/// The foreground colours the interpreter knows.
#[derive(Clone, Copy, Debug, PartialEq, Eq, Structural)]
pub enum Color {
    /// The default.
    Gray,
    Red,
    Green,
    Cyan,
}

impl Color {
    /// The red, green and blue parts of the colour.
    pub open spec fn rgb_spec(self) -> (u8, u8, u8) {
        match self {
            Color::Gray => (200u8, 200u8, 200u8),
            Color::Red => (255u8, 100u8, 100u8),
            Color::Green => (150u8, 255u8, 150u8),
            Color::Cyan => (100u8, 200u8, 255u8),
        }
    }

    /// The red, green and blue parts of the colour.
    pub fn rgb(self) -> (parts: (u8, u8, u8))
        ensures
            parts == self.rgb_spec(),
    {
        match self {
            Color::Gray => (200, 200, 200),
            Color::Red => (255, 100, 100),
            Color::Green => (150, 255, 150),
            Color::Cyan => (100, 200, 255),
        }
    }
}

/// One action that the terminal parser hands out.
#[derive(Clone, Debug, PartialEq, Eq)]
pub enum TerminalEvent {
    /// A character to show.
    Print(char),
    /// A C0 or C1 control function.
    Execute(u8),
    /// The end of a control sequence: its parameters, each with its
    /// subparameters, its intermediate bytes, whether the parser dropped part
    /// of it, and its final character.
    CsiDispatch { params: Vec<Vec<u16>>, intermediates: Vec<u8>, ignore: bool, action: char },
}

/// The mathematical value of a [`TerminalEvent`].
pub enum EventModel {
    Print(char),
    Execute(u8),
    CsiDispatch { params: Seq<Seq<u16>>, intermediates: Seq<u8>, ignore: bool, action: char },
}

impl View for TerminalEvent {
    type V = EventModel;

    open spec fn view(&self) -> EventModel {
        match self {
            TerminalEvent::Print(c) => EventModel::Print(*c),
            TerminalEvent::Execute(byte) => EventModel::Execute(*byte),
            TerminalEvent::CsiDispatch { params, intermediates, ignore, action } => {
                EventModel::CsiDispatch {
                    params: params.deep_view(),
                    intermediates: intermediates@,
                    ignore: *ignore,
                    action: *action,
                }
            },
        }
    }
}

impl DeepView for TerminalEvent {
    type V = EventModel;

    open spec fn deep_view(&self) -> EventModel {
        self@
    }
}

/// The text and colour reached so far while one command's output is read.
#[derive(Clone, Debug, PartialEq, Eq)]
pub struct Interpreter {
    pub text: String,
    pub current_color: Color,
}

/// The mathematical value of an [`Interpreter`].
pub struct InterpreterModel {
    pub text: Seq<char>,
    pub current_color: Color,
}

impl View for Interpreter {
    type V = InterpreterModel;

    open spec fn view(&self) -> InterpreterModel {
        InterpreterModel { text: self.text@, current_color: self.current_color }
    }
}

/// The state every command's output starts from: no text, the default colour.
pub open spec fn initial_state() -> InterpreterModel {
    InterpreterModel { text: Seq::empty(), current_color: Color::Gray }
}

/// The colour after one graphic-rendition parameter: the colour the table
/// gives for it, or the colour before where the table has none.
pub open spec fn select_color(current: Color, code: u16) -> Color {
    if code == 0 {
        Color::Gray
    } else if code == 31 {
        Color::Red
    } else if code == 32 {
        Color::Green
    } else if code == 36 {
        Color::Cyan
    } else {
        current
    }
}

/// The colour after a list of parameters, applied from first to last; of each
/// parameter its leading value counts.
pub open spec fn apply_parameters(current: Color, params: Seq<Seq<u16>>) -> Color
    decreases params.len(),
{
    if params.len() == 0 {
        current
    } else {
        let before = apply_parameters(current, params.drop_last());
        if params.last().len() > 0 {
            select_color(before, params.last()[0])
        } else {
            before
        }
    }
}

/// The text after a control function: a carriage return leaves it as it is,
/// any other control byte is appended as a character.
pub open spec fn executed_text(text: Seq<char>, byte: u8) -> Seq<char> {
    if byte == 0x0D {
        text
    } else {
        text.push(byte as char)
    }
}

/// The state after one event.
pub open spec fn apply_event(state: InterpreterModel, event: EventModel) -> InterpreterModel {
    match event {
        EventModel::Print(c) => InterpreterModel { text: state.text.push(c), ..state },
        EventModel::Execute(byte) => InterpreterModel {
            text: executed_text(state.text, byte),
            ..state
        },
        EventModel::CsiDispatch { params, intermediates, ignore, action } => if action == 'm' {
            InterpreterModel {
                current_color: apply_parameters(state.current_color, params),
                ..state
            }
        } else {
            state
        },
    }
}

/// The state after a sequence of events, applied from first to last.
pub open spec fn apply_events(state: InterpreterModel, events: Seq<EventModel>) -> InterpreterModel
    decreases events.len(),
{
    if events.len() == 0 {
        state
    } else {
        apply_event(apply_events(state, events.drop_last()), events.last())
    }
}

/// The line that stands for the text of one command: the text itself, or a
/// fixed notice where the command printed nothing.
pub open spec fn output_line(text: Seq<char>) -> LineModel {
    if text.len() > 0 {
        plain_line(text)
    } else {
        plain_line("Command executed successfully."@)
    }
}

/// Whether the parser treats `c` as a control function when it stands outside
/// any escape sequence: the C0 and C1 ranges.
pub open spec fn is_control(c: char) -> bool {
    c as u32 <= 0x1F || 0x80 <= c as u32 <= 0x9F
}

/// The event for a character that stands outside any escape sequence.
pub open spec fn ground_event(c: char) -> EventModel {
    if is_control(c) {
        EventModel::Execute(c as u8)
    } else {
        EventModel::Print(c)
    }
}

/// The events for a text that holds no escape character.
pub open spec fn ground_events(text: Seq<char>) -> Seq<EventModel> {
    text.map_values(|c: char| ground_event(c))
}

/// `text` without its carriage returns.
pub open spec fn without_carriage_returns(text: Seq<char>) -> Seq<char> {
    text.filter(|c: char| c != '\r')
}

/// The parameter list of a control sequence as the parser holds it.
#[verifier::external_type_specification]
#[verifier::external_body]
pub struct ExParams(vte::Params);

/// The parameters that a `vte::Params` holds, each with its subparameters.
pub uninterp spec fn parameter_list(params: vte::Params) -> Seq<Seq<u16>>;

/// The events that a fresh `vte::Parser` hands out for the UTF-8 bytes of a
/// text, in order; of the actions it knows, those that the recorder keeps.
pub uninterp spec fn dispatched(text: Seq<char>) -> Seq<EventModel>;

/// Copies the parameters out of a `vte::Params` by `Params::iter`, which yields
/// one slice per parameter, holding the parameter and its subparameters.
#[verifier::external_body]
fn parameter_values(params: &vte::Params) -> (values: Vec<Vec<u16>>)
    ensures
        values.deep_view() == parameter_list(*params),
{
    params.iter().map(|param| param.to_vec()).collect()
}

/// Appends one character with `String::push`.
#[verifier::external_body]
fn push_char(text: &mut String, c: char)
    ensures
        final(text)@ == old(text)@.push(c),
{
    text.push(c);
}

/// Keeps the events that the parser hands out, in the order they come. Of
/// the parser's actions it keeps those that the interpreter gives a meaning:
/// characters, control functions and control sequences; the others leave it
/// as it is.
pub struct Recorder {
    events: Vec<TerminalEvent>,
}

impl Recorder {
    /// The events kept so far, oldest first.
    pub closed spec fn recorded(&self) -> Seq<EventModel> {
        self.events.deep_view()
    }

    /// A recorder that holds no event.
    pub fn new() -> (recorder: Recorder)
        ensures
            recorder.recorded() == Seq::<EventModel>::empty(),
    {
        let recorder = Recorder { events: Vec::new() };
        assert(recorder.events.deep_view() =~= Seq::<EventModel>::empty());
        recorder
    }

    /// Appends one event.
    pub fn record(&mut self, event: TerminalEvent)
        ensures
            final(self).recorded() == old(self).recorded().push(event@),
    {
        self.events.push(event);
        assert(self.events.deep_view() =~= old(self).events.deep_view().push(event@));
    }

    /// Hands out the events kept, oldest first.
    pub fn into_events(self) -> (events: Vec<TerminalEvent>)
        ensures
            events.deep_view() == self.recorded(),
    {
        self.events
    }
}

impl vte::Perform for Recorder {
    /// A character to show: kept.
    fn print(&mut self, c: char)
        ensures
            final(self).recorded() == old(self).recorded().push(EventModel::Print(c)),
    {
        self.record(TerminalEvent::Print(c));
    }

    /// A control function: kept.
    fn execute(&mut self, byte: u8)
        ensures
            final(self).recorded() == old(self).recorded().push(EventModel::Execute(byte)),
    {
        self.record(TerminalEvent::Execute(byte));
    }

    /// The start of a device control string: accepted, and nothing is kept.
    fn hook(&mut self, _params: &vte::Params, _intermediates: &[u8], _ignore: bool, _action: char)
        ensures
            final(self).recorded() == old(self).recorded(),
    {
    }

    /// A byte of a device control string: accepted, and nothing is kept.
    fn put(&mut self, _byte: u8)
        ensures
            final(self).recorded() == old(self).recorded(),
    {
    }

    /// The end of a device control string: accepted, and nothing is kept.
    fn unhook(&mut self)
        ensures
            final(self).recorded() == old(self).recorded(),
    {
    }

    /// An operating system command: accepted, and nothing is kept.
    fn osc_dispatch(&mut self, _params: &[&[u8]], _bell_terminated: bool)
        ensures
            final(self).recorded() == old(self).recorded(),
    {
    }

    /// The end of a control sequence: kept, with all that came with it.
    fn csi_dispatch(&mut self, params: &vte::Params, intermediates: &[u8], ignore: bool, action: char)
        ensures
            final(self).recorded() == old(self).recorded().push(
                EventModel::CsiDispatch {
                    params: parameter_list(*params),
                    intermediates: intermediates@,
                    ignore,
                    action,
                },
            ),
    {
        self.record(
            TerminalEvent::CsiDispatch {
                params: parameter_values(params),
                intermediates: slice_to_vec(intermediates),
                ignore,
                action,
            },
        );
    }

    /// The end of an escape sequence: accepted, and nothing is kept.
    fn esc_dispatch(&mut self, _intermediates: &[u8], _ignore: bool, _byte: u8)
        ensures
            final(self).recorded() == old(self).recorded(),
    {
    }
}

/// Runs a fresh `vte::Parser` (`Parser::new`) over the UTF-8 bytes of `text`
/// with one call of `Parser::advance`, and returns what it handed to the
/// recorder.
///
/// The contract names the result and states one fact about it. The parser
/// leaves its ground state only at an escape character; while in it, it
/// decodes the text and hands each character out on its own, C0 and C1
/// controls as `execute` with the character's code, all others as `print`.
/// So for a text without an escape character the events are those of
/// [`ground_events`].
#[verifier::external_body]
fn dispatch(text: &str) -> (events: Vec<TerminalEvent>)
    ensures
        events.deep_view() == dispatched(text@),
        !text@.contains('\x1b') ==> events.deep_view() == ground_events(text@),
{
    let mut parser = vte::Parser::new();
    let mut recorder = Recorder::new();
    parser.advance(&mut recorder, text.as_bytes());
    recorder.into_events()
}

proof fn lemma_parameter_view(params: &Vec<Vec<u16>>, i: int)
    requires
        0 <= i < params@.len(),
    ensures
        params.deep_view()[i] == params@[i]@,
        params.deep_view().len() == params@.len(),
{
    assert(params@[i].deep_view() =~= params@[i]@);
}

proof fn lemma_control_round_trip(c: char)
    requires
        is_control(c),
    ensures
        (c as u8) as char == c,
        c == '\r' <==> c as u8 == 0x0D,
{
    let byte = c as u8;
    assert(byte as u32 == c as u32);
    assert((byte as char) as u32 == c as u32);
}

/// For a text without an escape character the events leave exactly the text
/// without its carriage returns, and the colour as it was.
pub proof fn lemma_ground_text(state: InterpreterModel, text: Seq<char>)
    ensures
        apply_events(state, ground_events(text)).text == state.text + without_carriage_returns(
            text,
        ),
        apply_events(state, ground_events(text)).current_color == state.current_color,
    decreases text.len(),
{
    reveal(Seq::filter);
    let keep = |c: char| c != '\r';
    if text.len() == 0 {
        assert(state.text + without_carriage_returns(text) =~= state.text);
    } else {
        let head = text.drop_last();
        let c = text.last();
        lemma_ground_text(state, head);
        assert(ground_events(text).drop_last() =~= ground_events(head));
        assert(ground_events(text).last() == ground_event(c));
        let before = apply_events(state, ground_events(head));
        if is_control(c) {
            lemma_control_round_trip(c);
            if c == '\r' {
                assert(without_carriage_returns(text) == without_carriage_returns(head));
            } else {
                assert(c as u8 != 0x0D);
                assert(without_carriage_returns(text) == without_carriage_returns(head).push(c));
                assert(before.text.push(c) =~= state.text + without_carriage_returns(text));
            }
        } else {
            assert(keep(c));
            assert(without_carriage_returns(text) == without_carriage_returns(head).push(c));
            assert(before.text.push(c) =~= state.text + without_carriage_returns(text));
        }
    }
}

/// Within one control sequence the last parameter that the table knows decides
/// the colour, whatever came before it.
pub proof fn lemma_last_known_parameter_wins(current: Color, params: Seq<Seq<u16>>, code: u16)
    requires
        code == 0 || code == 31 || code == 32 || code == 36,
    ensures
        apply_parameters(current, params.push(seq![code])) == select_color(Color::Gray, code),
{
    let all = params.push(seq![code]);
    assert(all.drop_last() =~= params);
    assert(all.last()[0] == code);
}

impl Interpreter {
    /// An interpreter at the start of a command's output.
    pub fn new() -> (interpreter: Interpreter)
        ensures
            interpreter@ == initial_state(),
    {
        Interpreter { text: String::new(), current_color: Color::Gray }
    }

    /// Shows one character.
    pub fn print(&mut self, c: char)
        ensures
            final(self)@ == apply_event(old(self)@, EventModel::Print(c)),
    {
        push_char(&mut self.text, c);
    }

    /// Carries out one control function.
    pub fn execute(&mut self, byte: u8)
        ensures
            final(self)@ == apply_event(old(self)@, EventModel::Execute(byte)),
    {
        if byte != 0x0D {
            push_char(&mut self.text, byte as char);
        }
    }

    /// Carries out one control sequence: `m` selects the colour, every other
    /// sequence is accepted and changes nothing.
    pub fn csi_dispatch(
        &mut self,
        params: &Vec<Vec<u16>>,
        intermediates: &Vec<u8>,
        ignore: bool,
        action: char,
    )
        ensures
            final(self)@ == apply_event(
                old(self)@,
                EventModel::CsiDispatch {
                    params: params.deep_view(),
                    intermediates: intermediates@,
                    ignore,
                    action,
                },
            ),
    {
        if action == 'm' {
            let mut color = self.current_color;
            let n: usize = params.len();
            let mut i: usize = 0;
            while i < n
                invariant
                    i <= n == params@.len(),
                    color == apply_parameters(
                        old(self).current_color,
                        params.deep_view().take(i as int),
                    ),
                decreases n - i,
            {
                proof {
                    lemma_parameter_view(params, i as int);
                    let upto = params.deep_view().take(i + 1);
                    assert(upto.drop_last() =~= params.deep_view().take(i as int));
                    assert(upto.last() == params@[i as int]@);
                }
                let param = &params[i];
                if param.len() > 0 {
                    let code: u16 = param[0];
                    if code == 0 {
                        color = Color::Gray;
                    } else if code == 31 {
                        color = Color::Red;
                    } else if code == 32 {
                        color = Color::Green;
                    } else if code == 36 {
                        color = Color::Cyan;
                    }
                }
                i = i + 1;
            }
            assert(params.deep_view().take(n as int) =~= params.deep_view());
            self.current_color = color;
        }
    }

    /// Carries out one event.
    pub fn apply(&mut self, event: &TerminalEvent)
        ensures
            final(self)@ == apply_event(old(self)@, event@),
    {
        match event {
            TerminalEvent::Print(c) => self.print(*c),
            TerminalEvent::Execute(byte) => self.execute(*byte),
            TerminalEvent::CsiDispatch { params, intermediates, ignore, action } => {
                self.csi_dispatch(params, intermediates, *ignore, *action)
            },
        }
    }

    /// Carries out a sequence of events, from first to last.
    pub fn feed(&mut self, events: &Vec<TerminalEvent>)
        ensures
            final(self)@ == apply_events(old(self)@, events.deep_view()),
    {
        let n: usize = events.len();
        let mut i: usize = 0;
        while i < n
            invariant
                i <= n == events@.len(),
                self@ == apply_events(old(self)@, events.deep_view().take(i as int)),
            decreases n - i,
        {
            proof {
                let upto = events.deep_view().take(i + 1);
                assert(upto.drop_last() =~= events.deep_view().take(i as int));
                assert(upto.last() == events@[i as int]@);
            }
            self.apply(&events[i]);
            i = i + 1;
        }
        assert(events.deep_view().take(n as int) =~= events.deep_view());
    }

    /// The log line for what was read: the text, or the fixed notice for a
    /// command that printed nothing.
    pub fn into_line(self) -> (line: OutputLine)
        ensures
            line@ == output_line(self@.text),
    {
        if self.text.as_str().is_empty() {
            OutputLine { text: "Command executed successfully.".to_owned(), is_error: false }
        } else {
            OutputLine { text: self.text, is_error: false }
        }
    }
}

/// Reads a sequence of events with a fresh interpreter.
pub fn render(events: &Vec<TerminalEvent>) -> (interpreter: Interpreter)
    ensures
        interpreter@ == apply_events(initial_state(), events.deep_view()),
{
    let mut interpreter = Interpreter::new();
    interpreter.feed(events);
    interpreter
}

/// Reads the captured output of one command with a fresh interpreter.
///
/// The result is what the parser's events for `text` leave behind. For a text
/// without an escape character that is the text itself without its carriage
/// returns, in the default colour.
pub fn interpret(text: &str) -> (interpreter: Interpreter)
    ensures
        interpreter@ == apply_events(initial_state(), dispatched(text@)),
        !text@.contains('\x1b') ==> interpreter@ == (InterpreterModel {
            text: without_carriage_returns(text@),
            current_color: Color::Gray,
        }),
{
    let events = dispatch(text);
    proof {
        if !text@.contains('\x1b') {
            lemma_ground_text(initial_state(), text@);
            assert(Seq::<char>::empty() + without_carriage_returns(text@)
                =~= without_carriage_returns(text@));
        }
    }
    render(&events)
}

} // verus!
