//! Turns what the natural-language translator answered into a command or a
//! typed failure. Calling the translator and decoding its payload are the
//! caller's business; what is decided about the answer is decided here.

use vstd::prelude::*;
use vstd::string::*;

verus! {

broadcast use vstd::string::group_string_axioms;

/// The structured payload of one translator answer.
#[derive(Clone, Debug, PartialEq, Eq)]
pub struct DelegateResponse {
    /// The text that was sent.
    pub input: String,
    /// The command the translator proposes, if any.
    pub command: Option<String>,
    /// The translator's own error message, if any.
    pub error: Option<String>,
}

/// The mathematical value of a [`DelegateResponse`].
pub struct ResponseModel {
    pub input: Seq<char>,
    pub command: Option<Seq<char>>,
    pub error: Option<Seq<char>>,
}

impl View for DelegateResponse {
    type V = ResponseModel;

    open spec fn view(&self) -> ResponseModel {
        ResponseModel {
            input: self.input@,
            command: match self.command {
                Some(command) => Some(command@),
                None => None,
            },
            error: match self.error {
                Some(error) => Some(error@),
                None => None,
            },
        }
    }
}

/// Why a translator call gave no command.
#[derive(Clone, Debug, PartialEq, Eq)]
pub enum DelegateError {
    /// The translator could not be started or exited with a failure; holds
    /// what it wrote to its error stream.
    ProcessFailure(String),
    /// The payload is not a well-formed response; holds the raw payload.
    MalformedResponse(String),
    /// The translator reported an error of its own; holds its message.
    ServiceError(String),
    /// The response holds neither an error nor a usable command.
    EmptyCommand,
}

/// The mathematical value of a [`DelegateError`].
pub enum DelegateErrorModel {
    ProcessFailure(Seq<char>),
    MalformedResponse(Seq<char>),
    ServiceError(Seq<char>),
    EmptyCommand,
}

impl View for DelegateError {
    type V = DelegateErrorModel;

    open spec fn view(&self) -> DelegateErrorModel {
        match self {
            DelegateError::ProcessFailure(stderr) => DelegateErrorModel::ProcessFailure(stderr@),
            DelegateError::MalformedResponse(raw) => DelegateErrorModel::MalformedResponse(raw@),
            DelegateError::ServiceError(message) => DelegateErrorModel::ServiceError(message@),
            DelegateError::EmptyCommand => DelegateErrorModel::EmptyCommand,
        }
    }
}

/// How one translator call ended, as the caller observed it.
#[derive(Clone, Debug, PartialEq, Eq)]
pub enum DelegateReply {
    /// The process did not start or exited with a failure; holds its error
    /// stream.
    ProcessFailed(String),
    /// The process succeeded but its payload could not be decoded; holds the
    /// raw payload.
    Unparsable(String),
    /// The process succeeded and its payload was decoded.
    Parsed(DelegateResponse),
}

/// The mathematical value of a [`DelegateReply`].
pub enum ReplyModel {
    ProcessFailed(Seq<char>),
    Unparsable(Seq<char>),
    Parsed(ResponseModel),
}

impl View for DelegateReply {
    type V = ReplyModel;

    open spec fn view(&self) -> ReplyModel {
        match self {
            DelegateReply::ProcessFailed(stderr) => ReplyModel::ProcessFailed(stderr@),
            DelegateReply::Unparsable(raw) => ReplyModel::Unparsable(raw@),
            DelegateReply::Parsed(response) => ReplyModel::Parsed(response@),
        }
    }
}

/// The mathematical value of a translator call's result.
pub open spec fn outcome_view(outcome: Result<String, DelegateError>) -> Result<
    Seq<char>,
    DelegateErrorModel,
> {
    match outcome {
        Ok(command) => Ok(command@),
        Err(error) => Err(error@),
    }
}

/// The command a decoded response stands for: a reported error wins, then a
/// non-empty command; a response with neither is an empty command.
pub open spec fn resolve_spec(response: ResponseModel) -> Result<Seq<char>, DelegateErrorModel> {
    match response.error {
        Some(message) => Err(DelegateErrorModel::ServiceError(message)),
        None => match response.command {
            Some(command) => if command.len() > 0 {
                Ok(command)
            } else {
                Err(DelegateErrorModel::EmptyCommand)
            },
            None => Err(DelegateErrorModel::EmptyCommand),
        },
    }
}

/// The result of a whole translator call.
pub open spec fn delegate_outcome_spec(reply: ReplyModel) -> Result<Seq<char>, DelegateErrorModel> {
    match reply {
        ReplyModel::ProcessFailed(stderr) => Err(DelegateErrorModel::ProcessFailure(stderr)),
        ReplyModel::Unparsable(raw) => Err(DelegateErrorModel::MalformedResponse(raw)),
        ReplyModel::Parsed(response) => resolve_spec(response),
    }
}

/// The text shown to the user for a translator failure.
pub open spec fn delegate_message(error: DelegateErrorModel) -> Seq<char> {
    match error {
        DelegateErrorModel::ProcessFailure(stderr) => "AI script error: "@ + stderr,
        DelegateErrorModel::MalformedResponse(raw) => "Failed to parse AI response: "@ + raw,
        DelegateErrorModel::ServiceError(message) => "AI processing error: "@ + message,
        DelegateErrorModel::EmptyCommand => "No valid command returned by AI"@,
    }
}

/// Reads the command out of a decoded response.
pub fn resolve_response(response: DelegateResponse) -> (outcome: Result<String, DelegateError>)
    ensures
        outcome_view(outcome) == resolve_spec(response@),
{
    match response.error {
        Some(message) => Err(DelegateError::ServiceError(message)),
        None => match response.command {
            Some(command) => {
                if command.as_str().is_empty() {
                    Err(DelegateError::EmptyCommand)
                } else {
                    Ok(command)
                }
            },
            None => Err(DelegateError::EmptyCommand),
        },
    }
}

/// Decides what a whole translator call amounts to.
pub fn delegate_outcome(reply: DelegateReply) -> (outcome: Result<String, DelegateError>)
    ensures
        outcome_view(outcome) == delegate_outcome_spec(reply@),
{
    match reply {
        DelegateReply::ProcessFailed(stderr) => Err(DelegateError::ProcessFailure(stderr)),
        DelegateReply::Unparsable(raw) => Err(DelegateError::MalformedResponse(raw)),
        DelegateReply::Parsed(response) => resolve_response(response),
    }
}

impl DelegateError {
    /// The text shown to the user for this failure.
    pub fn message(&self) -> (text: String)
        ensures
            text@ == delegate_message(self@),
    {
        match self {
            DelegateError::ProcessFailure(stderr) => "AI script error: ".to_owned().concat(
                stderr.as_str(),
            ),
            DelegateError::MalformedResponse(raw) => "Failed to parse AI response: ".to_owned().concat(
                raw.as_str(),
            ),
            DelegateError::ServiceError(message) => "AI processing error: ".to_owned().concat(
                message.as_str(),
            ),
            DelegateError::EmptyCommand => "No valid command returned by AI".to_owned(),
        }
    }
}

/// A response that names neither a command nor an error is an empty command,
/// whatever input it echoes.
pub proof fn lemma_silent_response_is_empty_command(response: ResponseModel)
    requires
        response.command is None,
        response.error is None,
    ensures
        resolve_spec(response) == Err::<Seq<char>, DelegateErrorModel>(
            DelegateErrorModel::EmptyCommand,
        ),
        delegate_outcome_spec(ReplyModel::Parsed(response)) == Err::<Seq<char>, DelegateErrorModel>(
            DelegateErrorModel::EmptyCommand,
        ),
{
}

} // verus!
