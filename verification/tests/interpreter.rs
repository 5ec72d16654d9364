use terminal_ai::interpreter::{
    interpret, render, Color, Interpreter, Recorder, TerminalEvent,
};
use terminal_ai::output::OutputLine;

fn read(text: &str) -> (String, Color) {
    let end = interpret(text);
    (end.text, end.current_color)
}

#[test]
fn plain_text_passes_through() {
    assert_eq!(read("hello world"), ("hello world".to_string(), Color::Gray));
}

#[test]
fn carriage_returns_are_dropped() {
    assert_eq!(read("a\r\nb\rc\n"), ("a\nbc\n".to_string(), Color::Gray));
}

#[test]
fn other_control_bytes_are_kept() {
    assert_eq!(read("a\tb\u{0007}c\u{0000}d"), ("a\tb\u{0007}c\u{0000}d".to_string(), Color::Gray));
}

#[test]
fn text_beyond_ascii_passes_through() {
    assert_eq!(read("héllo ✓ 日本 🦀"), ("héllo ✓ 日本 🦀".to_string(), Color::Gray));
    assert_eq!(read("a\u{0085}b\u{009F}c\u{007F}"), ("a\u{0085}b\u{009F}c\u{007F}".to_string(), Color::Gray));
}

#[test]
fn red_is_selected_before_text() {
    assert_eq!(read("\u{1b}[31mT"), ("T".to_string(), Color::Red));
}

#[test]
fn each_colour_of_the_table_is_selected() {
    assert_eq!(read("\u{1b}[32mok").1, Color::Green);
    assert_eq!(read("\u{1b}[36mok").1, Color::Cyan);
    assert_eq!(read("\u{1b}[31mfail\u{1b}[0m").1, Color::Gray);
    assert_eq!(read("\u{1b}[31mfail\u{1b}[m").1, Color::Gray);
}

#[test]
fn the_last_parameter_wins() {
    assert_eq!(read("\u{1b}[31;32;36mx"), ("x".to_string(), Color::Cyan));
    assert_eq!(read("\u{1b}[36;0;31mx").1, Color::Red);
}

#[test]
fn unknown_parameters_change_nothing() {
    assert_eq!(read("\u{1b}[1mbold"), ("bold".to_string(), Color::Gray));
    assert_eq!(read("\u{1b}[31;1;99mx").1, Color::Red);
    assert_eq!(read("\u{1b}[32m\u{1b}[4mx").1, Color::Green);
}

#[test]
fn only_the_leading_value_of_a_parameter_counts() {
    assert_eq!(read("\u{1b}[38:5:31mx").1, Color::Gray);
    assert_eq!(read("\u{1b}[31:5mx").1, Color::Red);
}

#[test]
fn other_control_sequences_have_no_effect() {
    assert_eq!(read("a\u{1b}[2Jb\u{1b}[10;20Hc"), ("abc".to_string(), Color::Gray));
    assert_eq!(read("\u{1b}]0;title\u{0007}text"), ("text".to_string(), Color::Gray));
    assert_eq!(read("\u{1b}Pq#0;2;0;0;0\u{1b}\\after"), ("after".to_string(), Color::Gray));
    assert_eq!(read("a\u{1b}7b\u{1b}(Bc"), ("abc".to_string(), Color::Gray));
}

#[test]
fn an_unfinished_sequence_is_dropped() {
    assert_eq!(read("abc\u{1b}[31"), ("abc".to_string(), Color::Gray));
    assert_eq!(read("abc\u{1b}"), ("abc".to_string(), Color::Gray));
    assert_eq!(read("abc\u{1b}]0;title"), ("abc".to_string(), Color::Gray));
}

#[test]
fn text_between_sequences_is_joined() {
    assert_eq!(
        read("\u{1b}[32mgreen\u{1b}[0m and \u{1b}[36mcyan\r\n"),
        ("green and cyan\n".to_string(), Color::Cyan)
    );
}

#[test]
fn empty_output_reads_as_nothing() {
    assert_eq!(read(""), (String::new(), Color::Gray));
}

#[test]
fn text_becomes_one_line() {
    assert_eq!(
        interpret("\u{1b}[31mT").into_line(),
        OutputLine { text: "T".to_string(), is_error: false }
    );
}

#[test]
fn no_text_becomes_the_notice() {
    let notice = OutputLine { text: "Command executed successfully.".to_string(), is_error: false };
    assert_eq!(interpret("").into_line(), notice);
    assert_eq!(interpret("\r").into_line(), notice);
    assert_eq!(interpret("\u{1b}[31m").into_line(), notice);
}

#[test]
fn every_interpreter_starts_afresh() {
    assert_eq!(read("\u{1b}[31mred").1, Color::Red);
    assert_eq!(read("plain"), ("plain".to_string(), Color::Gray));
    assert_eq!(Interpreter::new(), Interpreter { text: String::new(), current_color: Color::Gray });
}

#[test]
fn events_are_applied_in_order() {
    let events = vec![
        TerminalEvent::Print('a'),
        TerminalEvent::Execute(b'\r'),
        TerminalEvent::Execute(b'\n'),
        TerminalEvent::CsiDispatch {
            params: vec![vec![31]],
            intermediates: vec![],
            ignore: false,
            action: 'm',
        },
        TerminalEvent::Execute(0x85),
        TerminalEvent::CsiDispatch {
            params: vec![vec![32]],
            intermediates: vec![],
            ignore: false,
            action: 'H',
        },
        TerminalEvent::CsiDispatch {
            params: vec![vec![], vec![36, 31], vec![7]],
            intermediates: vec![b'?'],
            ignore: true,
            action: 'm',
        },
        TerminalEvent::Print('b'),
    ];
    let end = render(&events);
    assert_eq!(end.text, "a\n\u{0085}b");
    assert_eq!(end.current_color, Color::Cyan);
}

#[test]
fn interpreter_methods_follow_the_events() {
    let mut interpreter = Interpreter::new();
    interpreter.print('x');
    interpreter.execute(b'\r');
    interpreter.execute(b'\n');
    interpreter.csi_dispatch(&vec![vec![32]], &vec![], false, 'm');
    interpreter.apply(&TerminalEvent::Print('y'));
    interpreter.feed(&vec![TerminalEvent::Print('z')]);
    assert_eq!(interpreter.text, "x\nyz");
    assert_eq!(interpreter.current_color, Color::Green);
}

#[test]
fn colours_have_their_parts() {
    assert_eq!(Color::Gray.rgb(), (200, 200, 200));
    assert_eq!(Color::Red.rgb(), (255, 100, 100));
    assert_eq!(Color::Green.rgb(), (150, 255, 150));
    assert_eq!(Color::Cyan.rgb(), (100, 200, 255));
}

#[test]
fn every_character_but_escape_and_carriage_return_is_kept() {
    let mut code: u32 = 0;
    while code <= 0x0300 {
        if let Some(c) = char::from_u32(code) {
            if c != '\u{1b}' {
                let text = format!("a{}b", c);
                let kept = if c == '\r' { "ab".to_string() } else { text.clone() };
                assert_eq!(read(&text), (kept, Color::Gray), "{:#x}", code);
            }
        }
        code += 1;
    }
}

#[test]
fn the_recorder_keeps_what_it_is_handed() {
    let mut recorder = Recorder::new();
    recorder.record(TerminalEvent::Print('a'));
    recorder.record(TerminalEvent::Execute(b'\n'));
    assert_eq!(
        recorder.into_events(),
        vec![TerminalEvent::Print('a'), TerminalEvent::Execute(b'\n')]
    );
    assert_eq!(Recorder::new().into_events(), Vec::<TerminalEvent>::new());
}

#[test]
fn the_recorder_keeps_the_parsers_events_in_order() {
    let mut parser = vte::Parser::new();
    let mut recorder = Recorder::new();
    parser.advance(&mut recorder, "a\r\u{1b}[31;1:2m\u{1b}[?25hé".as_bytes());
    assert_eq!(
        recorder.into_events(),
        vec![
            TerminalEvent::Print('a'),
            TerminalEvent::Execute(b'\r'),
            TerminalEvent::CsiDispatch {
                params: vec![vec![31], vec![1, 2]],
                intermediates: vec![],
                ignore: false,
                action: 'm',
            },
            TerminalEvent::CsiDispatch {
                params: vec![vec![25]],
                intermediates: vec![b'?'],
                ignore: false,
                action: 'h',
            },
            TerminalEvent::Print('é'),
        ]
    );
}

#[test]
fn the_recorder_passes_over_the_other_actions() {
    let mut parser = vte::Parser::new();
    let mut recorder = Recorder::new();
    parser.advance(&mut recorder, b"\x1b]0;title\x07\x1bPq1\x1b\\\x1b7x");
    assert_eq!(recorder.into_events(), vec![TerminalEvent::Print('x')]);
}
