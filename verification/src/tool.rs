//! The input of the `gemini` tool and the shape of its answer.

use crate::error::{message_text, GeminiError};
use crate::invocation::{result_view, Request, RequestView, ResultView};
use crate::outcome::{failure_outcome, GeminiResult, OutcomeView};
use crate::text::{followed_by, opt_text};
use vstd::prelude::*;
use vstd::string::*;

verus! {

/// How the error starts when an outcome could not be written as JSON.
pub const SERIALIZATION_ERROR_TAG: &'static str = "JSON serialization error: ";

/// The answer of last resort, for when not even a failure can be written as
/// JSON.
pub const UNKNOWN_ERROR_ANSWER: &'static str = "{\"success\":false,\"error\":\"Unknown error\"}";

/// Input parameters for the gemini tool.
#[derive(Debug)]
pub struct GeminiToolInput {
    /// Instruction for the task to send to gemini.
    pub prompt: String,
    /// The workspace root for gemini.
    pub cd: String,
    /// Run in sandbox mode.
    pub sandbox: bool,
    /// The session to resume; empty starts a new one.
    pub session_id: String,
    /// Return all messages from the gemini session.
    pub return_all_messages: bool,
    /// The model to use; empty leaves the choice to gemini.
    pub model: String,
}

/// A tool input with its texts as character sequences.
pub struct ToolInputView {
    pub prompt: Seq<char>,
    pub cd: Seq<char>,
    pub sandbox: bool,
    pub session_id: Seq<char>,
    pub return_all_messages: bool,
    pub model: Seq<char>,
}

impl View for GeminiToolInput {
    type V = ToolInputView;

    open spec fn view(&self) -> ToolInputView {
        ToolInputView {
            prompt: self.prompt@,
            cd: self.cd@,
            sandbox: self.sandbox,
            session_id: self.session_id@,
            return_all_messages: self.return_all_messages,
            model: self.model@,
        }
    }
}

/// A text, or nothing where it is empty.
pub open spec fn non_empty(text: Seq<char>) -> Option<Seq<char>> {
    if text.len() == 0 {
        None
    } else {
        Some(text)
    }
}

/// The request that a tool input stands for: an empty session identifier
/// and an empty model name count as absent.
pub open spec fn request_of(input: ToolInputView, escape_prompt: bool) -> RequestView {
    RequestView {
        prompt: input.prompt,
        cwd: input.cd,
        sandbox: input.sandbox,
        session_id: non_empty(input.session_id),
        model: non_empty(input.model),
        return_all_messages: input.return_all_messages,
        escape_prompt,
    }
}

/// The outcome that is reported for a result: the outcome itself, or, for
/// an invocation that failed, a failure with the sentence that describes
/// why.
pub open spec fn reported(result: ResultView) -> OutcomeView {
    match result {
        Ok(outcome) => outcome,
        Err(error) => failure_outcome(message_text(error)),
    }
}

/// A string, or nothing where it is empty.
fn keep_non_empty(text: String) -> (kept: Option<String>)
    ensures
        opt_text(kept) == non_empty(text@),
{
    if text.as_str().is_empty() {
        None
    } else {
        Some(text)
    }
}

impl GeminiToolInput {
    /// The request that this input stands for. `escape_prompt` says whether
    /// the platform's command line needs the prompt escaped.
    pub fn into_request(self, escape_prompt: bool) -> (request: Request)
        ensures
            request@ == request_of(self@, escape_prompt),
    {
        Request {
            prompt: self.prompt,
            cwd: self.cd,
            sandbox: self.sandbox,
            session_id: keep_non_empty(self.session_id),
            model: keep_non_empty(self.model),
            return_all_messages: self.return_all_messages,
            escape_prompt,
        }
    }
}

/// The outcome to report for the result of an invocation.
pub fn report(result: Result<GeminiResult, GeminiError>) -> (outcome: GeminiResult)
    ensures
        outcome@ == reported(result_view(result)),
{
    match result {
        Ok(outcome) => outcome,
        Err(error) => GeminiResult::from_error(&error),
    }
}

/// The outcome to report when an outcome could not be written as JSON, with
/// the serializer's reason.
pub fn serialization_failure(reason: &str) -> (outcome: GeminiResult)
    ensures
        outcome@ == failure_outcome(SERIALIZATION_ERROR_TAG@ + reason@),
{
    GeminiResult::failure(followed_by(SERIALIZATION_ERROR_TAG, reason))
}

} // verus!
