use terminal_ai::text::{
    char_is_whitespace, contains_char, first_token_len, starts_with, str_eq, to_chars, trim,
    trim_bounds,
};

#[test]
fn whitespace_is_the_unicode_property() {
    for c in ['\t', '\n', '\u{000B}', '\u{000C}', '\r', ' ', '\u{0085}', '\u{00A0}', '\u{1680}',
        '\u{2000}', '\u{200A}', '\u{2028}', '\u{2029}', '\u{202F}', '\u{205F}', '\u{3000}']
    {
        assert!(char_is_whitespace(c), "{:?}", c);
    }
    for c in ['a', '0', '\u{0008}', '\u{000E}', '\u{001F}', '\u{200B}', '\u{180E}', '\u{FEFF}'] {
        assert!(!char_is_whitespace(c), "{:?}", c);
    }
}

#[test]
fn whitespace_agrees_with_the_standard_library() {
    let mut code: u32 = 0;
    while code <= 0x3100 {
        if let Some(c) = char::from_u32(code) {
            assert_eq!(char_is_whitespace(c), c.is_whitespace(), "{:#x}", code);
        }
        code += 1;
    }
}

#[test]
fn trim_removes_both_ends() {
    assert_eq!(trim("  a b \n"), "a b");
    assert_eq!(trim("a"), "a");
    assert_eq!(trim(""), "");
    assert_eq!(trim(" \t "), "");
    assert_eq!(trim("\u{3000}é\u{2003}"), "é");
}

#[test]
fn trim_bounds_are_character_positions() {
    let chars = to_chars(" é√ ");
    assert_eq!(trim_bounds(&chars), (1, 3));
    let blank = to_chars("   ");
    let bounds = trim_bounds(&blank);
    assert_eq!(bounds.0, bounds.1);
}

#[test]
fn chars_are_kept_in_order() {
    assert_eq!(to_chars("a√b"), vec!['a', '√', 'b']);
    assert_eq!(to_chars(""), Vec::<char>::new());
}

#[test]
fn strings_compare_by_content() {
    assert!(str_eq("clear", "clear"));
    assert!(!str_eq("clear", "clear "));
    assert!(str_eq("", ""));
}

#[test]
fn first_token_stops_at_whitespace() {
    assert_eq!(first_token_len(&to_chars("ls -la")), 2);
    assert_eq!(first_token_len(&to_chars("pwd")), 3);
    assert_eq!(first_token_len(&to_chars(" x")), 0);
    assert_eq!(first_token_len(&to_chars("")), 0);
}

#[test]
fn contains_finds_a_character() {
    assert!(contains_char(&to_chars("a=b"), '='));
    assert!(!contains_char(&to_chars("ab"), '='));
    assert!(!contains_char(&to_chars(""), '='));
}

#[test]
fn prefix_is_checked_character_by_character() {
    assert!(starts_with(&to_chars("cd /tmp"), &to_chars("cd ")));
    assert!(!starts_with(&to_chars("cd"), &to_chars("cd ")));
    assert!(starts_with(&to_chars("abc"), &to_chars("")));
    assert!(!starts_with(&to_chars("abd"), &to_chars("abc")));
}
