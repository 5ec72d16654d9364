use terminal_ai::classifier::{classify, is_known_command, Classification, ClassifiedCommand};

fn resolved(command: ClassifiedCommand) -> Classification {
    Classification::Resolved(command)
}

fn shell(text: &str) -> Classification {
    resolved(ClassifiedCommand::ShellCommand(text.to_string()))
}

fn change_directory(path: &str) -> Classification {
    resolved(ClassifiedCommand::BuiltinChangeDirectory(path.to_string()))
}

#[test]
fn clear_is_a_builtin() {
    assert_eq!(classify("clear"), resolved(ClassifiedCommand::BuiltinClear));
}

#[test]
fn clear_is_recognised_inside_blanks() {
    assert_eq!(classify("  clear \t\n"), resolved(ClassifiedCommand::BuiltinClear));
}

#[test]
fn cd_with_a_path_changes_directory() {
    assert_eq!(classify("cd /tmp"), change_directory("/tmp"));
}

#[test]
fn cd_path_is_trimmed() {
    assert_eq!(classify("  cd    /var/log  "), change_directory("/var/log"));
}

#[test]
fn cd_keeps_the_rest_of_the_line_after_the_first_prefix() {
    assert_eq!(classify("cd cd projects"), change_directory("cd projects"));
}

#[test]
fn bare_cd_names_no_path() {
    assert_eq!(classify("cd"), change_directory(""));
    assert_eq!(classify(" cd "), change_directory(""));
}

#[test]
fn exit_and_quit_leave() {
    assert_eq!(classify("exit"), resolved(ClassifiedCommand::BuiltinExit));
    assert_eq!(classify("quit"), resolved(ClassifiedCommand::BuiltinExit));
}

#[test]
fn known_utility_is_a_shell_command() {
    assert_eq!(classify("ls -la"), shell("ls -la"));
    assert_eq!(classify("  grep -r needle .  "), shell("grep -r needle ."));
    assert_eq!(classify("pwd"), shell("pwd"));
}

#[test]
fn every_known_utility_is_recognised() {
    let names = [
        "ls", "pwd", "clear", "cd", "cat", "echo", "grep", "find", "rm", "mkdir", "touch", "mv",
        "cp", "chmod", "chown", "whoami", "df", "du", "top", "htop", "ps", "kill",
    ];
    for name in names {
        assert!(is_known_command(name), "{}", name);
    }
    assert!(!is_known_command("show"));
    assert!(!is_known_command("l"));
    assert!(!is_known_command("lsx"));
    assert!(!is_known_command(""));
}

#[test]
fn shell_characters_make_a_shell_command() {
    assert_eq!(classify("FOO=bar"), shell("FOO=bar"));
    assert_eq!(classify("who | wc -l"), shell("who | wc -l"));
    assert_eq!(classify("date > now.txt"), shell("date > now.txt"));
}

#[test]
fn a_sentence_with_a_shell_character_goes_to_the_shell() {
    assert_eq!(classify("is five > three"), shell("is five > three"));
}

#[test]
fn natural_language_is_delegated() {
    assert_eq!(
        classify("show me big files"),
        Classification::Delegate("show me big files".to_string())
    );
}

#[test]
fn delegated_text_is_trimmed() {
    assert_eq!(
        classify("  what time is it  "),
        Classification::Delegate("what time is it".to_string())
    );
}

#[test]
fn names_that_only_begin_like_builtins_are_not_builtins() {
    assert_eq!(classify("clearly wrong"), Classification::Delegate("clearly wrong".to_string()));
    assert_eq!(classify("exit now"), Classification::Delegate("exit now".to_string()));
    assert_eq!(classify("cdrom"), Classification::Delegate("cdrom".to_string()));
}

#[test]
fn the_first_token_ends_at_any_whitespace() {
    assert_eq!(classify("ls\t-l"), shell("ls\t-l"));
    assert_eq!(classify("cat\u{00A0}file"), shell("cat\u{00A0}file"));
}

#[test]
fn a_blank_line_is_delegated_as_nothing() {
    assert_eq!(classify("   "), Classification::Delegate(String::new()));
}
