//! The lines of the output log.

use vstd::prelude::*;
use vstd::string::*;

verus! {

/// One entry of the output log.
#[derive(Clone, Debug, PartialEq, Eq)]
pub struct OutputLine {
    pub text: String,
    /// Whether the line reports a failure; such lines are drawn apart from
    /// ordinary output.
    pub is_error: bool,
}

/// The mathematical value of an [`OutputLine`].
pub struct LineModel {
    pub text: Seq<char>,
    pub is_error: bool,
}

impl View for OutputLine {
    type V = LineModel;

    open spec fn view(&self) -> LineModel {
        LineModel { text: self.text@, is_error: self.is_error }
    }
}

impl DeepView for OutputLine {
    type V = LineModel;

    open spec fn deep_view(&self) -> LineModel {
        self@
    }
}

/// An ordinary line.
pub open spec fn plain_line(text: Seq<char>) -> LineModel {
    LineModel { text, is_error: false }
}

/// A line that reports a failure.
pub open spec fn error_line(text: Seq<char>) -> LineModel {
    LineModel { text, is_error: true }
}

} // verus!
