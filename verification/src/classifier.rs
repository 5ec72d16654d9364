//! Decides how a submitted line is treated: as a built-in, as literal shell
//! syntax, or as natural language that a translator has to turn into a command.

use crate::text::{
    contains_char, first_token, first_token_len, lemma_trimmed, starts_with, str_eq, to_chars,
    trim, trimmed,
};
use vstd::prelude::*;
use vstd::string::*;

verus! {

broadcast use vstd::string::group_string_axioms;

/// What a submitted line asks for.
#[derive(Clone, Debug, PartialEq, Eq)]
pub enum ClassifiedCommand {
    /// Empty the output log.
    BuiltinClear,
    /// Change the working directory to the given path (empty: the home directory).
    BuiltinChangeDirectory(String),
    /// Leave the program.
    BuiltinExit,
    /// Hand the text to the shell as it is.
    ShellCommand(String),
}

/// The mathematical value of a [`ClassifiedCommand`].
pub enum CommandModel {
    BuiltinClear,
    BuiltinChangeDirectory(Seq<char>),
    BuiltinExit,
    ShellCommand(Seq<char>),
}

impl View for ClassifiedCommand {
    type V = CommandModel;

    open spec fn view(&self) -> CommandModel {
        match self {
            ClassifiedCommand::BuiltinClear => CommandModel::BuiltinClear,
            ClassifiedCommand::BuiltinChangeDirectory(path) => CommandModel::BuiltinChangeDirectory(
                path@,
            ),
            ClassifiedCommand::BuiltinExit => CommandModel::BuiltinExit,
            ClassifiedCommand::ShellCommand(text) => CommandModel::ShellCommand(text@),
        }
    }
}

/// The classifier's verdict on one line.
#[derive(Clone, Debug, PartialEq, Eq)]
pub enum Classification {
    /// The line is a command as it stands.
    Resolved(ClassifiedCommand),
    /// The line reads as natural language: the translator is to be asked for
    /// a command, with the trimmed line as its input.
    Delegate(String),
}

/// The mathematical value of a [`Classification`].
pub enum ClassificationModel {
    Resolved(CommandModel),
    Delegate(Seq<char>),
}

impl View for Classification {
    type V = ClassificationModel;

    open spec fn view(&self) -> ClassificationModel {
        match self {
            Classification::Resolved(command) => ClassificationModel::Resolved(command@),
            Classification::Delegate(text) => ClassificationModel::Delegate(text@),
        }
    }
}

/// The shell utilities whose name at the start of a line marks it as a shell
/// command.
pub open spec fn known_commands() -> Seq<Seq<char>> {
    seq![
        "ls"@,
        "pwd"@,
        "clear"@,
        "cd"@,
        "cat"@,
        "echo"@,
        "grep"@,
        "find"@,
        "rm"@,
        "mkdir"@,
        "touch"@,
        "mv"@,
        "cp"@,
        "chmod"@,
        "chown"@,
        "whoami"@,
        "df"@,
        "du"@,
        "top"@,
        "htop"@,
        "ps"@,
        "kill"@,
    ]
}

/// Whether a trimmed line is taken for literal shell syntax: its first token
/// is a known utility, or it holds one of `=`, `|`, `>`.
pub open spec fn looks_like_shell(line: Seq<char>) -> bool {
    ||| known_commands().contains(first_token(line))
    ||| line.contains('=')
    ||| line.contains('|')
    ||| line.contains('>')
}

/// The verdict on `line`, by the first rule that applies to the trimmed line.
pub open spec fn classify_spec(line: Seq<char>) -> ClassificationModel {
    let t = trimmed(line);
    if t == "clear"@ {
        ClassificationModel::Resolved(CommandModel::BuiltinClear)
    } else if "cd "@.is_prefix_of(t) {
        ClassificationModel::Resolved(
            CommandModel::BuiltinChangeDirectory(trimmed(t.skip("cd "@.len() as int))),
        )
    } else if t == "cd"@ {
        ClassificationModel::Resolved(CommandModel::BuiltinChangeDirectory(Seq::empty()))
    } else if t == "exit"@ || t == "quit"@ {
        ClassificationModel::Resolved(CommandModel::BuiltinExit)
    } else if looks_like_shell(t) {
        ClassificationModel::Resolved(CommandModel::ShellCommand(t))
    } else {
        ClassificationModel::Delegate(t)
    }
}

/// The verdict on a line does not depend on the blanks around it.
pub proof fn lemma_classification_ignores_blank_ends(line: Seq<char>)
    ensures
        classify_spec(trimmed(line)) == classify_spec(line),
{
    lemma_trimmed(line);
}

fn known_command_names() -> (names: Vec<&'static str>)
    ensures
        names.deep_view() == known_commands(),
{
    let names: Vec<&'static str> = vec![
        "ls",
        "pwd",
        "clear",
        "cd",
        "cat",
        "echo",
        "grep",
        "find",
        "rm",
        "mkdir",
        "touch",
        "mv",
        "cp",
        "chmod",
        "chown",
        "whoami",
        "df",
        "du",
        "top",
        "htop",
        "ps",
        "kill",
    ];
    assert(names.deep_view() =~= known_commands());
    names
}

/// Whether `token` is one of the known shell utilities.
pub fn is_known_command(token: &str) -> (r: bool)
    ensures
        r == known_commands().contains(token@),
{
    let names = known_command_names();
    let n: usize = names.len();
    let mut i: usize = 0;
    while i < n
        invariant
            i <= n == names@.len(),
            names.deep_view() == known_commands(),
            forall|j: int| 0 <= j < i ==> known_commands()[j] != token@,
        decreases n - i,
    {
        assert(names.deep_view()[i as int] == names@[i as int]@);
        if str_eq(names[i], token) {
            return true;
        }
        i = i + 1;
    }
    false
}

/// Classifies one submitted line.
pub fn classify(line: &str) -> (verdict: Classification)
    ensures
        verdict@ == classify_spec(line@),
{
    let t = trim(line);
    if str_eq(t, "clear") {
        return Classification::Resolved(ClassifiedCommand::BuiltinClear);
    }
    let chars = to_chars(t);
    let prefix = to_chars("cd ");
    if starts_with(&chars, &prefix) {
        let rest = t.substring_char(prefix.len(), chars.len());
        assert(rest@ =~= t@.skip("cd "@.len() as int));
        let path = trim(rest);
        return Classification::Resolved(
            ClassifiedCommand::BuiltinChangeDirectory(path.to_owned()),
        );
    }
    if str_eq(t, "cd") {
        return Classification::Resolved(ClassifiedCommand::BuiltinChangeDirectory(String::new()));
    }
    if str_eq(t, "exit") || str_eq(t, "quit") {
        return Classification::Resolved(ClassifiedCommand::BuiltinExit);
    }
    let k: usize = first_token_len(&chars);
    let token = t.substring_char(0, k);
    assert(token@ =~= first_token(t@));
    if is_known_command(token) || contains_char(&chars, '=') || contains_char(&chars, '|')
        || contains_char(&chars, '>') {
        Classification::Resolved(ClassifiedCommand::ShellCommand(t.to_owned()))
    } else {
        Classification::Delegate(t.to_owned())
    }
}

} // verus!
