use terminal_ai::delegate::{
    delegate_outcome, resolve_response, DelegateError, DelegateReply, DelegateResponse,
};

fn response(command: Option<&str>, error: Option<&str>) -> DelegateResponse {
    DelegateResponse {
        input: "show me big files".to_string(),
        command: command.map(|c| c.to_string()),
        error: error.map(|e| e.to_string()),
    }
}

#[test]
fn a_command_is_handed_on() {
    assert_eq!(resolve_response(response(Some("du -sh *"), None)), Ok("du -sh *".to_string()));
}

#[test]
fn a_silent_response_is_an_empty_command() {
    assert_eq!(resolve_response(response(None, None)), Err(DelegateError::EmptyCommand));
}

#[test]
fn an_empty_command_is_an_empty_command() {
    assert_eq!(resolve_response(response(Some(""), None)), Err(DelegateError::EmptyCommand));
}

#[test]
fn a_reported_error_wins_over_a_command() {
    assert_eq!(
        resolve_response(response(Some("ls"), Some("quota exceeded"))),
        Err(DelegateError::ServiceError("quota exceeded".to_string()))
    );
    assert_eq!(
        resolve_response(response(None, Some(""))),
        Err(DelegateError::ServiceError(String::new()))
    );
}

#[test]
fn a_failed_process_is_a_process_failure() {
    assert_eq!(
        delegate_outcome(DelegateReply::ProcessFailed("no such file".to_string())),
        Err(DelegateError::ProcessFailure("no such file".to_string()))
    );
}

#[test]
fn an_undecodable_payload_is_malformed() {
    assert_eq!(
        delegate_outcome(DelegateReply::Unparsable("{oops".to_string())),
        Err(DelegateError::MalformedResponse("{oops".to_string()))
    );
}

#[test]
fn a_decoded_payload_is_resolved() {
    assert_eq!(
        delegate_outcome(DelegateReply::Parsed(response(Some("ls"), None))),
        Ok("ls".to_string())
    );
    assert_eq!(
        delegate_outcome(DelegateReply::Parsed(response(None, None))),
        Err(DelegateError::EmptyCommand)
    );
}

#[test]
fn delegate_failures_have_their_texts() {
    assert_eq!(
        DelegateError::ProcessFailure("boom".to_string()).message(),
        "AI script error: boom"
    );
    assert_eq!(
        DelegateError::MalformedResponse("{".to_string()).message(),
        "Failed to parse AI response: {"
    );
    assert_eq!(
        DelegateError::ServiceError("busy".to_string()).message(),
        "AI processing error: busy"
    );
    assert_eq!(DelegateError::EmptyCommand.message(), "No valid command returned by AI");
}
