//! The failures that stop an invocation before it has an outcome, and their
//! wording.

use crate::text::followed_by;
use vstd::prelude::*;
use vstd::string::*;

verus! {

/// Why an invocation failed. Only the first three kinds stop an invocation;
/// the others name conditions that an outcome reports in its own text.
#[derive(Debug, PartialEq, Eq)]
pub enum GeminiError {
    /// The working directory, named here, does not exist.
    WorkspaceNotFound(String),
    /// No `gemini` executable is on the search path.
    GeminiNotFound,
    /// The system refused to start the process; the text is its reason.
    ProcessSpawnError(String),
    /// Output could not be read as JSON; the text is the parser's reason.
    JsonParseError(String),
    NoSessionId,
    NoAgentMessages(String),
    ProcessTimeout,
    Other(String),
}

/// A failure with its texts as character sequences.
pub enum ErrorView {
    WorkspaceNotFound(Seq<char>),
    GeminiNotFound,
    ProcessSpawnError(Seq<char>),
    JsonParseError(Seq<char>),
    NoSessionId,
    NoAgentMessages(Seq<char>),
    ProcessTimeout,
    Other(Seq<char>),
}

impl View for GeminiError {
    type V = ErrorView;

    open spec fn view(&self) -> ErrorView {
        match self {
            GeminiError::WorkspaceNotFound(path) => ErrorView::WorkspaceNotFound(path@),
            GeminiError::GeminiNotFound => ErrorView::GeminiNotFound,
            GeminiError::ProcessSpawnError(reason) => ErrorView::ProcessSpawnError(reason@),
            GeminiError::JsonParseError(reason) => ErrorView::JsonParseError(reason@),
            GeminiError::NoSessionId => ErrorView::NoSessionId,
            GeminiError::NoAgentMessages(detail) => ErrorView::NoAgentMessages(detail@),
            GeminiError::ProcessTimeout => ErrorView::ProcessTimeout,
            GeminiError::Other(text) => ErrorView::Other(text@),
        }
    }
}

/// The sentence that describes a failure.
pub open spec fn message_text(error: ErrorView) -> Seq<char> {
    match error {
        ErrorView::WorkspaceNotFound(path) => "Workspace directory does not exist: "@ + path,
        ErrorView::GeminiNotFound => "Failed to find gemini executable in PATH"@,
        ErrorView::ProcessSpawnError(reason) => "Failed to spawn gemini process: "@ + reason,
        ErrorView::JsonParseError(reason) => "Failed to parse JSON output: "@ + reason,
        ErrorView::NoSessionId => "Failed to get SESSION_ID from gemini session"@,
        ErrorView::NoAgentMessages(detail) => "Failed to retrieve agent_messages from gemini session: "@
            + detail,
        ErrorView::ProcessTimeout => "Process timeout"@,
        ErrorView::Other(text) => text,
    }
}

impl GeminiError {
    /// The sentence that describes this failure.
    pub fn message(&self) -> (text: String)
        ensures
            text@ == message_text(self@),
    {
        match self {
            GeminiError::WorkspaceNotFound(path) => followed_by(
                "Workspace directory does not exist: ",
                path.as_str(),
            ),
            GeminiError::GeminiNotFound => "Failed to find gemini executable in PATH".to_owned(),
            GeminiError::ProcessSpawnError(reason) => followed_by(
                "Failed to spawn gemini process: ",
                reason.as_str(),
            ),
            GeminiError::JsonParseError(reason) => followed_by(
                "Failed to parse JSON output: ",
                reason.as_str(),
            ),
            GeminiError::NoSessionId => "Failed to get SESSION_ID from gemini session".to_owned(),
            GeminiError::NoAgentMessages(detail) => followed_by(
                "Failed to retrieve agent_messages from gemini session: ",
                detail.as_str(),
            ),
            GeminiError::ProcessTimeout => "Process timeout".to_owned(),
            GeminiError::Other(text) => text.clone(),
        }
    }
}

} // verus!
