//! The directory-change built-in: which directory a request names and what a
//! failed change is called. Resolving the path against the file system and
//! changing the process's working directory are the caller's business.

use crate::text::to_chars;
use vstd::prelude::*;
use vstd::string::*;

verus! {

broadcast use vstd::string::group_string_axioms;

/// Which directory a request names.
#[derive(Clone, Debug, PartialEq, Eq)]
pub enum DirectoryTarget {
    /// The user's home directory.
    Home,
    /// The given path, taken from the root.
    Absolute(String),
    /// The given path, taken from the current working directory.
    Relative(String),
}

/// The mathematical value of a [`DirectoryTarget`].
pub enum TargetModel {
    Home,
    Absolute(Seq<char>),
    Relative(Seq<char>),
}

impl View for DirectoryTarget {
    type V = TargetModel;

    open spec fn view(&self) -> TargetModel {
        match self {
            DirectoryTarget::Home => TargetModel::Home,
            DirectoryTarget::Absolute(path) => TargetModel::Absolute(path@),
            DirectoryTarget::Relative(path) => TargetModel::Relative(path@),
        }
    }
}

/// Why the working directory was not changed.
#[derive(Clone, Debug, PartialEq, Eq)]
pub enum DirectoryError {
    /// The requested directory does not exist; holds the request as written.
    NotFound(String),
    /// The resolved path is not valid Unicode.
    InvalidEncoding,
    /// The home directory was asked for and the environment names none.
    HomeUnset,
}

/// The mathematical value of a [`DirectoryError`].
pub enum DirectoryErrorModel {
    NotFound(Seq<char>),
    InvalidEncoding,
    HomeUnset,
}

impl View for DirectoryError {
    type V = DirectoryErrorModel;

    open spec fn view(&self) -> DirectoryErrorModel {
        match self {
            DirectoryError::NotFound(path) => DirectoryErrorModel::NotFound(path@),
            DirectoryError::InvalidEncoding => DirectoryErrorModel::InvalidEncoding,
            DirectoryError::HomeUnset => DirectoryErrorModel::HomeUnset,
        }
    }
}

/// What the file system made of a requested path, as the caller observed it.
#[derive(Clone, Debug, PartialEq, Eq)]
pub enum Resolution {
    /// The path names no existing directory.
    Missing,
    /// The directory exists, but its resolved path is not valid Unicode.
    NotUnicode,
    /// The directory exists; holds its resolved path.
    Found(String),
}

/// The mathematical value of a [`Resolution`].
pub enum ResolutionModel {
    Missing,
    NotUnicode,
    Found(Seq<char>),
}

impl View for Resolution {
    type V = ResolutionModel;

    open spec fn view(&self) -> ResolutionModel {
        match self {
            Resolution::Missing => ResolutionModel::Missing,
            Resolution::NotUnicode => ResolutionModel::NotUnicode,
            Resolution::Found(path) => ResolutionModel::Found(path@),
        }
    }
}

/// The mathematical value of a directory change's result.
pub open spec fn outcome_view(outcome: Result<String, DirectoryError>) -> Result<
    Seq<char>,
    DirectoryErrorModel,
> {
    match outcome {
        Ok(path) => Ok(path@),
        Err(error) => Err(error@),
    }
}

/// The directory that `dir` names: none at all means home, a leading `/`
/// means absolute, anything else is relative to the working directory.
pub open spec fn target_spec(dir: Seq<char>) -> TargetModel {
    if dir.len() == 0 {
        TargetModel::Home
    } else if dir[0] == '/' {
        TargetModel::Absolute(dir)
    } else {
        TargetModel::Relative(dir)
    }
}

/// The home directory to change to, given what the environment holds.
pub open spec fn home_spec(home: Option<Seq<char>>) -> Result<Seq<char>, DirectoryErrorModel> {
    match home {
        Some(path) => Ok(path),
        None => Err(DirectoryErrorModel::HomeUnset),
    }
}

/// The directory to change to for the request `dir`, given what the file
/// system made of it: a missing directory is reported under the name that was
/// asked for.
pub open spec fn resolution_spec(dir: Seq<char>, resolution: ResolutionModel) -> Result<
    Seq<char>,
    DirectoryErrorModel,
> {
    match resolution {
        ResolutionModel::Missing => Err(DirectoryErrorModel::NotFound(dir)),
        ResolutionModel::NotUnicode => Err(DirectoryErrorModel::InvalidEncoding),
        ResolutionModel::Found(path) => Ok(path),
    }
}

/// The text shown to the user for a failed directory change.
pub open spec fn directory_message(error: DirectoryErrorModel) -> Seq<char> {
    match error {
        DirectoryErrorModel::NotFound(path) => "Directory "@ + path + " does not exist"@,
        DirectoryErrorModel::InvalidEncoding => "Invalid path encoding"@,
        DirectoryErrorModel::HomeUnset => "HOME environment variable not set"@,
    }
}

/// Decides which directory `dir` names.
pub fn directory_target(dir: &str) -> (target: DirectoryTarget)
    ensures
        target@ == target_spec(dir@),
{
    let chars = to_chars(dir);
    if chars.len() == 0 {
        DirectoryTarget::Home
    } else if chars[0] == '/' {
        DirectoryTarget::Absolute(dir.to_owned())
    } else {
        DirectoryTarget::Relative(dir.to_owned())
    }
}

/// The home directory to change to, or the error for an environment that
/// names none.
pub fn home_directory(home: Option<String>) -> (outcome: Result<String, DirectoryError>)
    ensures
        outcome_view(outcome) == home_spec(
            match home {
                Some(path) => Some(path@),
                None => None,
            },
        ),
{
    match home {
        Some(path) => Ok(path),
        None => Err(DirectoryError::HomeUnset),
    }
}

/// Decides what the file system's answer for the request `dir` amounts to.
pub fn resolution_outcome(dir: &str, resolution: Resolution) -> (outcome: Result<
    String,
    DirectoryError,
>)
    ensures
        outcome_view(outcome) == resolution_spec(dir@, resolution@),
{
    match resolution {
        Resolution::Missing => Err(DirectoryError::NotFound(dir.to_owned())),
        Resolution::NotUnicode => Err(DirectoryError::InvalidEncoding),
        Resolution::Found(path) => Ok(path),
    }
}

impl DirectoryError {
    /// The text shown to the user for this failure.
    pub fn message(&self) -> (text: String)
        ensures
            text@ == directory_message(self@),
    {
        match self {
            DirectoryError::NotFound(path) => "Directory ".to_owned().concat(path.as_str()).concat(
                " does not exist",
            ),
            DirectoryError::InvalidEncoding => "Invalid path encoding".to_owned(),
            DirectoryError::HomeUnset => "HOME environment variable not set".to_owned(),
        }
    }
}

} // verus!
