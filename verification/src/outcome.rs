//! The outcome of an invocation and the rules that decide it.

use crate::backlog::{ErrorBacklog, DIAGNOSTIC_SEPARATOR};
use crate::error::{message_text, GeminiError};
use crate::text::{followed_by, has_infix, joined, opt_text};
use vstd::prelude::*;
use vstd::string::*;

verus! {

/// How the error of an outcome starts when the read deadline elapsed.
pub const TIMEOUT_NOTICE: &'static str = "Process timeout. ";

/// How the error of an outcome starts when no event carried a session
/// identifier.
pub const NO_SESSION_NOTICE: &'static str =
    "Failed to get `SESSION_ID` from the gemini session.\n\n";

/// How the error of an outcome starts when the agent sent no reply text.
pub const NO_REPLY_NOTICE: &'static str =
    "Failed to retrieve `agent_messages` data from the Gemini session. This might be due to Gemini performing a tool call. You can continue using the `SESSION_ID` to proceed with the conversation.\n\n";

/// Result of a Gemini CLI execution. `error` is present exactly when
/// `success` is false.
#[derive(Debug)]
pub struct GeminiResult {
    pub success: bool,
    /// The identifier under which the conversation can be resumed.
    pub session_id: Option<String>,
    /// The agent's reply, present on success.
    pub agent_messages: Option<String>,
    /// Every event of the stream as it came, present when it was asked for.
    pub all_messages: Option<Vec<serde_json::Value>>,
    pub error: Option<String>,
}

/// An outcome with its texts as character sequences.
pub struct OutcomeView {
    pub success: bool,
    pub session_id: Option<Seq<char>>,
    pub agent_messages: Option<Seq<char>>,
    pub all_messages: Option<Seq<serde_json::Value>>,
    pub error: Option<Seq<char>>,
}

/// The contents of an optional list of retained events.
pub open spec fn opt_values(values: Option<Vec<serde_json::Value>>) -> Option<
    Seq<serde_json::Value>,
> {
    match values {
        Some(values) => Some(values@),
        None => None,
    }
}

impl View for GeminiResult {
    type V = OutcomeView;

    open spec fn view(&self) -> OutcomeView {
        OutcomeView {
            success: self.success,
            session_id: opt_text(self.session_id),
            agent_messages: opt_text(self.agent_messages),
            all_messages: opt_values(self.all_messages),
            error: opt_text(self.error),
        }
    }
}

/// The outcome that reports `message` and nothing else.
pub open spec fn failure_outcome(message: Seq<char>) -> OutcomeView {
    OutcomeView {
        success: false,
        session_id: None,
        agent_messages: None,
        all_messages: None,
        error: Some(message),
    }
}

/// The outcome of an invocation, by precedence: a timeout, then a missing
/// session identifier, then an empty reply, then success. A failure carries
/// its notice followed by the diagnostics, one per line. The session
/// identifier and the retained events are handed on in every case.
pub open spec fn classified(
    timed_out: bool,
    session_id: Option<Seq<char>>,
    agent_message: Seq<char>,
    backlog: Seq<Seq<char>>,
    retained: Option<Seq<serde_json::Value>>,
) -> OutcomeView {
    let diagnostics = joined(backlog, DIAGNOSTIC_SEPARATOR@);
    if timed_out {
        OutcomeView {
            success: false,
            session_id,
            agent_messages: None,
            all_messages: retained,
            error: Some(TIMEOUT_NOTICE@ + diagnostics),
        }
    } else if session_id is None {
        OutcomeView {
            success: false,
            session_id,
            agent_messages: None,
            all_messages: retained,
            error: Some(NO_SESSION_NOTICE@ + diagnostics),
        }
    } else if agent_message.len() == 0 {
        OutcomeView {
            success: false,
            session_id,
            agent_messages: None,
            all_messages: retained,
            error: Some(NO_REPLY_NOTICE@ + diagnostics),
        }
    } else {
        OutcomeView {
            success: true,
            session_id,
            agent_messages: Some(agent_message),
            all_messages: retained,
            error: None,
        }
    }
}

/// What the notice for an empty reply points to as the likely cause.
pub const TOOL_CALL_HINT: &'static str = "tool call";

/// An outcome carries an error exactly when it is a failure, and a reply
/// exactly when it is a success.
pub proof fn lemma_error_iff_failure(
    timed_out: bool,
    session_id: Option<Seq<char>>,
    agent_message: Seq<char>,
    backlog: Seq<Seq<char>>,
    retained: Option<Seq<serde_json::Value>>,
)
    ensures
        ({
            let outcome = classified(timed_out, session_id, agent_message, backlog, retained);
            &&& outcome.success <==> outcome.error is None
            &&& outcome.success <==> outcome.agent_messages is Some
            &&& outcome.success <==> !timed_out && session_id is Some && agent_message.len() > 0
            &&& outcome.session_id == session_id
            &&& outcome.all_messages == retained
        }),
{
}

/// When the read deadline elapsed, the outcome is a failure whose error
/// begins with "Process timeout.", whatever else was gathered.
pub proof fn lemma_timeout_is_failure(
    session_id: Option<Seq<char>>,
    agent_message: Seq<char>,
    backlog: Seq<Seq<char>>,
    retained: Option<Seq<serde_json::Value>>,
)
    ensures
        ({
            let outcome = classified(true, session_id, agent_message, backlog, retained);
            &&& !outcome.success
            &&& outcome.error is Some
            &&& "Process timeout."@.is_prefix_of(outcome.error->0)
        }),
{
    reveal_strlit("Process timeout. ");
    reveal_strlit("Process timeout.");
    let outcome = classified(true, session_id, agent_message, backlog, retained);
    assert("Process timeout."@ =~= outcome.error->0.subrange(0, 16));
}

/// When a session identifier was captured but no reply text, the outcome is
/// a failure that still carries the identifier, and its error begins with
/// the notice that names a tool call as the likely cause.
pub proof fn lemma_empty_reply_is_failure(
    session_id: Seq<char>,
    backlog: Seq<Seq<char>>,
    retained: Option<Seq<serde_json::Value>>,
)
    ensures
        ({
            let outcome = classified(false, Some(session_id), Seq::empty(), backlog, retained);
            &&& !outcome.success
            &&& outcome.session_id == Some(session_id)
            &&& outcome.error is Some
            &&& NO_REPLY_NOTICE@.is_prefix_of(outcome.error->0)
            &&& has_infix(outcome.error->0, TOOL_CALL_HINT@)
        }),
{
    reveal_strlit(
        "Failed to retrieve `agent_messages` data from the Gemini session. This might be due to Gemini performing a tool call. You can continue using the `SESSION_ID` to proceed with the conversation.\n\n",
    );
    reveal_strlit("tool call");
    let outcome = classified(false, Some(session_id), Seq::empty(), backlog, retained);
    let error = outcome.error->0;
    assert(NO_REPLY_NOTICE@ =~= error.subrange(0, NO_REPLY_NOTICE@.len() as int));
    let at: int = 107;
    assert(error.subrange(at, at + TOOL_CALL_HINT@.len()) =~= TOOL_CALL_HINT@);
}

/// Decides the outcome of an invocation from what its read stage left.
pub fn classify(
    timed_out: bool,
    session_id: Option<String>,
    agent_messages: String,
    backlog: &ErrorBacklog,
    all_messages: Option<Vec<serde_json::Value>>,
) -> (outcome: GeminiResult)
    ensures
        outcome@ == classified(
            timed_out,
            opt_text(session_id),
            agent_messages@,
            backlog@,
            opt_values(all_messages),
        ),
        outcome@.success <==> outcome@.error is None,
{
    let diagnostics = backlog.join();
    if timed_out {
        GeminiResult {
            success: false,
            session_id,
            agent_messages: None,
            all_messages,
            error: Some(followed_by(TIMEOUT_NOTICE, diagnostics.as_str())),
        }
    } else if session_id.is_none() {
        GeminiResult {
            success: false,
            session_id,
            agent_messages: None,
            all_messages,
            error: Some(followed_by(NO_SESSION_NOTICE, diagnostics.as_str())),
        }
    } else if agent_messages.as_str().is_empty() {
        GeminiResult {
            success: false,
            session_id,
            agent_messages: None,
            all_messages,
            error: Some(followed_by(NO_REPLY_NOTICE, diagnostics.as_str())),
        }
    } else {
        GeminiResult {
            success: true,
            session_id,
            agent_messages: Some(agent_messages),
            all_messages,
            error: None,
        }
    }
}

impl GeminiResult {
    /// The outcome that reports `message` and nothing else.
    pub fn failure(message: String) -> (outcome: GeminiResult)
        ensures
            outcome@ == failure_outcome(message@),
    {
        GeminiResult {
            success: false,
            session_id: None,
            agent_messages: None,
            all_messages: None,
            error: Some(message),
        }
    }

    /// The outcome that reports a failure which stopped the invocation.
    pub fn from_error(error: &GeminiError) -> (outcome: GeminiResult)
        ensures
            outcome@ == failure_outcome(message_text(error@)),
    {
        GeminiResult::failure(error.message())
    }
}

} // verus!
