//! One record of the agent's output stream.

use crate::text::{contains_text, has_infix, opt_text};
use vstd::prelude::*;
use vstd::string::*;

verus! {

/// The `type` tag of an event that carries message text.
pub const MESSAGE_KIND: &'static str = "message";

/// The `role` of the messages that make up the agent's reply.
pub const ASSISTANT_ROLE: &'static str = "assistant";

/// The `type` tag of the event that ends a turn.
pub const TURN_COMPLETED_KIND: &'static str = "turn.completed";

/// A warning that the agent prints as if it were part of its reply. Content
/// that holds it is left out of the reply.
pub const DEPRECATED_PROMPT_WARNING: &'static str = "The --prompt (-p) flag has been deprecated";

/// A single JSON event from the agent's output stream. A field that the line
/// did not carry is `None`, which differs from an empty string.
#[derive(Debug)]
pub struct GeminiEvent {
    /// The `type` tag of the line.
    pub event_type: Option<String>,
    pub role: Option<String>,
    pub content: Option<String>,
    pub session_id: Option<String>,
    /// Every other field of the line, kept as it came.
    pub extra: serde_json::Map<String, serde_json::Value>,
}

/// What the dispatcher reads of an event.
pub struct EventView {
    pub kind: Option<Seq<char>>,
    pub role: Option<Seq<char>>,
    pub content: Option<Seq<char>>,
    pub session_id: Option<Seq<char>>,
}

impl View for GeminiEvent {
    type V = EventView;

    open spec fn view(&self) -> EventView {
        EventView {
            kind: opt_text(self.event_type),
            role: opt_text(self.role),
            content: opt_text(self.content),
            session_id: opt_text(self.session_id),
        }
    }
}

/// Whether the event is the end-of-turn signal.
pub open spec fn turn_completed(event: EventView) -> bool {
    event.kind == Some(TURN_COMPLETED_KIND@)
}

/// The text that the event adds to the agent's reply: the content of an
/// assistant message, unless it holds the deprecation warning.
pub open spec fn reply_text(event: EventView) -> Option<Seq<char>> {
    if event.kind == Some(MESSAGE_KIND@) && event.role == Some(ASSISTANT_ROLE@) {
        match event.content {
            Some(content) => if has_infix(content, DEPRECATED_PROMPT_WARNING@) {
                None
            } else {
                Some(content)
            },
            None => None,
        }
    } else {
        None
    }
}

/// Whether an optional text is present and equal to `expected`.
pub fn holds(field: &Option<String>, expected: &str) -> (same: bool)
    ensures
        same == (opt_text(*field) == Some(expected@)),
{
    match field {
        Some(text) => text.as_str().eq(expected),
        None => false,
    }
}

/// Check if the event indicates turn completion.
pub fn is_turn_completed(event: &GeminiEvent) -> (done: bool)
    ensures
        done == turn_completed(event@),
{
    holds(&event.event_type, TURN_COMPLETED_KIND)
}

/// The content that the event adds to the agent's reply, if any.
pub fn reply_of(event: &GeminiEvent) -> (text: Option<&str>)
    ensures
        match text {
            Some(t) => reply_text(event@) == Some(t@),
            None => reply_text(event@) is None,
        },
{
    if holds(&event.event_type, MESSAGE_KIND) && holds(&event.role, ASSISTANT_ROLE) {
        match &event.content {
            Some(content) => if contains_text(content.as_str(), DEPRECATED_PROMPT_WARNING) {
                None
            } else {
                Some(content.as_str())
            },
            None => None,
        }
    } else {
        None
    }
}

} // verus!
