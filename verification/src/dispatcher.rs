//! Folding the events of one output stream into what the outcome needs.

use crate::backlog::{bounded_push, ErrorBacklog, BACKLOG_CAPACITY};
use crate::event::{is_turn_completed, reply_of, reply_text, turn_completed, EventView, GeminiEvent};
use crate::json::{json_value, parse_value};
use crate::outcome::{classified, classify, opt_values, GeminiResult, OutcomeView};
use crate::text::{followed_by, opt_str_text, opt_text};
use vstd::prelude::*;
use vstd::string::*;

verus! {

/// How the diagnostic for a line that is no event starts.
pub const PARSE_ERROR_TAG: &'static str = "[parse error] ";

/// What stands between the reason and the line in such a diagnostic.
pub const PARSE_ERROR_JOINT: &'static str = ": ";

/// How the diagnostic for a failed read starts.
pub const IO_ERROR_TAG: &'static str = "[io error] ";

/// What a dispatcher has gathered from the stream so far.
pub struct Transcript {
    /// The session identifier of the latest event that carried one.
    pub session_id: Option<Seq<char>>,
    /// The reply texts seen so far, concatenated.
    pub agent_message: Seq<char>,
    /// The diagnostics, oldest first.
    pub backlog: Seq<Seq<char>>,
    /// The events as they came, where the caller asked for them.
    pub retained: Option<Seq<serde_json::Value>>,
    /// Whether reading is over: the turn was completed or a read failed.
    pub stopped: bool,
}

/// One thing that a dispatcher can be told about the stream.
pub enum Record {
    /// A line that was decoded as an event, with the line as a JSON value
    /// where it is one.
    Event { event: EventView, raw: Option<serde_json::Value> },
    /// A line that is no event, with the decoder's reason.
    Malformed { detail: Seq<char>, line: Seq<char> },
    /// A failed read, with the system's reason.
    Fault { detail: Seq<char> },
}

/// The diagnostic for a line that is no event.
pub open spec fn parse_diagnostic(detail: Seq<char>, line: Seq<char>) -> Seq<char> {
    PARSE_ERROR_TAG@ + detail + PARSE_ERROR_JOINT@ + line
}

/// The diagnostic for a failed read.
pub open spec fn io_diagnostic(detail: Seq<char>) -> Seq<char> {
    IO_ERROR_TAG@ + detail
}

/// The transcript of a stream of which nothing has been read.
pub open spec fn initial_transcript(retain_all: bool) -> Transcript {
    Transcript {
        session_id: None,
        agent_message: Seq::empty(),
        backlog: Seq::empty(),
        retained: if retain_all {
            Some(Seq::empty())
        } else {
            None
        },
        stopped: false,
    }
}

/// The transcript after an event: the event is retained where that was asked
/// for and the line is a JSON value, its session identifier replaces the
/// previous one, its reply text is appended, and reading stops if it
/// completes the turn. Once stopped, a transcript no longer changes.
pub open spec fn absorb_event(
    t: Transcript,
    event: EventView,
    raw: Option<serde_json::Value>,
) -> Transcript {
    if t.stopped {
        t
    } else {
        Transcript {
            session_id: if event.session_id is Some {
                event.session_id
            } else {
                t.session_id
            },
            agent_message: match reply_text(event) {
                Some(text) => t.agent_message + text,
                None => t.agent_message,
            },
            backlog: t.backlog,
            retained: match (t.retained, raw) {
                (Some(events), Some(value)) => Some(events.push(value)),
                _ => t.retained,
            },
            stopped: turn_completed(event),
        }
    }
}

/// The transcript after a line that is no event: only the backlog grows.
pub open spec fn absorb_malformed(t: Transcript, detail: Seq<char>, line: Seq<char>) -> Transcript {
    if t.stopped {
        t
    } else {
        Transcript { backlog: bounded_push(t.backlog, parse_diagnostic(detail, line)), ..t }
    }
}

/// The transcript after a failed read: the backlog grows and reading stops.
pub open spec fn absorb_fault(t: Transcript, detail: Seq<char>) -> Transcript {
    if t.stopped {
        t
    } else {
        Transcript { backlog: bounded_push(t.backlog, io_diagnostic(detail)), stopped: true, ..t }
    }
}

/// The transcript after one record.
pub open spec fn absorb(t: Transcript, record: Record) -> Transcript {
    match record {
        Record::Event { event, raw } => absorb_event(t, event, raw),
        Record::Malformed { detail, line } => absorb_malformed(t, detail, line),
        Record::Fault { detail } => absorb_fault(t, detail),
    }
}

/// The transcript after a sequence of records, taken in order.
pub open spec fn replay(t: Transcript, records: Seq<Record>) -> Transcript
    decreases records.len(),
{
    if records.len() == 0 {
        t
    } else {
        absorb(replay(t, records.drop_last()), records.last())
    }
}

/// The outcome that a transcript leads to.
pub open spec fn outcome_of(t: Transcript, timed_out: bool) -> OutcomeView {
    classified(timed_out, t.session_id, t.agent_message, t.backlog, t.retained)
}

/// The records of a stream without the lines that are no events.
pub open spec fn without_malformed(records: Seq<Record>) -> Seq<Record>
    decreases records.len(),
{
    if records.len() == 0 {
        Seq::empty()
    } else if records.last() is Malformed {
        without_malformed(records.drop_last())
    } else {
        without_malformed(records.drop_last()).push(records.last())
    }
}

/// Whether two transcripts agree on everything but the diagnostics.
pub open spec fn same_gathering(a: Transcript, b: Transcript) -> bool {
    &&& a.session_id == b.session_id
    &&& a.agent_message == b.agent_message
    &&& a.retained == b.retained
    &&& a.stopped == b.stopped
}

/// Whether `later` holds everything that `earlier` had gathered: the reply
/// and the retained events only grew at the end, a session identifier is
/// still there, and a stopped transcript stayed stopped.
pub open spec fn extends(earlier: Transcript, later: Transcript) -> bool {
    &&& earlier.agent_message.is_prefix_of(later.agent_message)
    &&& earlier.session_id is Some ==> later.session_id is Some
    &&& match earlier.retained {
        Some(events) => later.retained is Some && events.is_prefix_of(later.retained->0),
        None => later.retained is None,
    }
    &&& earlier.stopped ==> later == earlier
}

/// A line that is no event changes nothing but the diagnostics.
pub proof fn lemma_malformed_keeps_gathering(t: Transcript, detail: Seq<char>, line: Seq<char>)
    ensures
        same_gathering(absorb_malformed(t, detail, line), t),
{
}

/// No record takes anything away from what was gathered, and the backlog
/// stays within its capacity.
pub proof fn lemma_absorb_extends(t: Transcript, record: Record)
    ensures
        extends(t, absorb(t, record)),
        t.backlog.len() <= BACKLOG_CAPACITY ==> absorb(t, record).backlog.len()
            <= BACKLOG_CAPACITY,
{
}

/// Holding everything that was gathered carries over two steps.
pub proof fn lemma_extends_transitive(a: Transcript, b: Transcript, c: Transcript)
    requires
        extends(a, b),
        extends(b, c),
    ensures
        extends(a, c),
{
}

/// No sequence of records takes anything away from what was gathered, and
/// the backlog stays within its capacity throughout.
pub proof fn lemma_replay_extends(t: Transcript, records: Seq<Record>)
    ensures
        extends(t, replay(t, records)),
        t.backlog.len() <= BACKLOG_CAPACITY ==> replay(t, records).backlog.len()
            <= BACKLOG_CAPACITY,
    decreases records.len(),
{
    if records.len() > 0 {
        let before = replay(t, records.drop_last());
        lemma_replay_extends(t, records.drop_last());
        lemma_absorb_extends(before, records.last());
        lemma_extends_transitive(t, before, replay(t, records));
    }
}

/// Replaying two sequences one after the other is replaying their
/// concatenation.
pub proof fn lemma_replay_concat(t: Transcript, first: Seq<Record>, second: Seq<Record>)
    ensures
        replay(t, first + second) == replay(replay(t, first), second),
    decreases second.len(),
{
    if second.len() == 0 {
        assert(first + second =~= first);
    } else {
        assert((first + second).drop_last() =~= first + second.drop_last());
        lemma_replay_concat(t, first, second.drop_last());
    }
}

/// Once the turn is completed, whatever else the stream holds is not
/// processed: the transcript is the one that the completing event left.
pub proof fn lemma_nothing_after_completion(
    t: Transcript,
    before: Seq<Record>,
    event: EventView,
    raw: Option<serde_json::Value>,
    after: Seq<Record>,
)
    requires
        turn_completed(event),
    ensures
        replay(t, before.push(Record::Event { event, raw }) + after) == replay(
            t,
            before.push(Record::Event { event, raw }),
        ),
{
    let upto = before.push(Record::Event { event, raw });
    let done = replay(t, upto);
    assert(upto.drop_last() =~= before);
    assert(done == absorb_event(replay(t, before), event, raw));
    lemma_replay_extends(t, before);
    assert(done.stopped);
    lemma_replay_concat(t, upto, after);
    lemma_replay_extends(done, after);
}

/// Lines that are no events, wherever they stand among the others, leave
/// what is gathered as it would be without them.
pub proof fn lemma_malformed_lines_ignored(t: Transcript, records: Seq<Record>)
    ensures
        same_gathering(replay(t, records), replay(t, without_malformed(records))),
    decreases records.len(),
{
    if records.len() > 0 {
        let rest = records.drop_last();
        lemma_malformed_lines_ignored(t, rest);
        if !(records.last() is Malformed) {
            let kept = without_malformed(rest).push(records.last());
            assert(kept.drop_last() =~= without_malformed(rest));
        }
    }
}

/// Gathers what the outcome needs from the events of one output stream.
pub struct Dispatcher {
    session_id: Option<String>,
    agent_messages: String,
    backlog: ErrorBacklog,
    all_messages: Option<Vec<serde_json::Value>>,
    stopped: bool,
}

impl View for Dispatcher {
    type V = Transcript;

    closed spec fn view(&self) -> Transcript {
        Transcript {
            session_id: opt_text(self.session_id),
            agent_message: self.agent_messages@,
            backlog: self.backlog@,
            retained: opt_values(self.all_messages),
            stopped: self.stopped,
        }
    }
}

impl Dispatcher {
    /// A dispatcher that has read nothing. With `retain_all` it keeps every
    /// event as it came.
    pub fn new(retain_all: bool) -> (dispatcher: Dispatcher)
        ensures
            dispatcher@ == initial_transcript(retain_all),
    {
        Dispatcher {
            session_id: None,
            agent_messages: String::new(),
            backlog: ErrorBacklog::new(),
            all_messages: if retain_all {
                Some(Vec::new())
            } else {
                None
            },
            stopped: false,
        }
    }

    /// Whether reading is over.
    pub fn is_stopped(&self) -> (stopped: bool)
        ensures
            stopped == self@.stopped,
    {
        self.stopped
    }

    /// Whether every event is kept as it came.
    pub fn retains_all(&self) -> (retains: bool)
        ensures
            retains == self@.retained is Some,
    {
        self.all_messages.is_some()
    }

    /// The session identifier of the latest event that carried one.
    pub fn session_id(&self) -> (id: Option<&str>)
        ensures
            opt_str_text(id) == self@.session_id,
    {
        match &self.session_id {
            Some(id) => Some(id.as_str()),
            None => None,
        }
    }

    /// The reply gathered so far.
    pub fn agent_messages(&self) -> (text: &str)
        ensures
            text@ == self@.agent_message,
    {
        self.agent_messages.as_str()
    }

    /// The diagnostics gathered so far.
    pub fn backlog(&self) -> (backlog: &ErrorBacklog)
        ensures
            backlog@ == self@.backlog,
    {
        &self.backlog
    }

    /// How many events are retained, where they are retained at all.
    pub fn retained_count(&self) -> (count: Option<usize>)
        ensures
            match count {
                Some(n) => self@.retained is Some && n == self@.retained->0.len(),
                None => self@.retained is None,
            },
    {
        match &self.all_messages {
            Some(events) => Some(events.len()),
            None => None,
        }
    }

    /// Takes in a decoded event together with the JSON value of its line.
    pub fn accept(&mut self, event: &GeminiEvent, raw: Option<serde_json::Value>)
        ensures
            final(self)@ == absorb_event(old(self)@, event@, raw),
    {
        if self.stopped {
            return ;
        }
        match raw {
            Some(value) => match &mut self.all_messages {
                Some(events) => {
                    events.push(value);
                },
                None => {},
            },
            None => {},
        }
        match &event.session_id {
            Some(id) => {
                self.session_id = Some(id.clone());
            },
            None => {},
        }
        match reply_of(event) {
            Some(text) => {
                self.agent_messages.append(text);
            },
            None => {},
        }
        self.stopped = is_turn_completed(event);
    }

    /// Takes in a decoded event and the line it was decoded from. The line is
    /// parsed as a JSON value only where events are retained.
    pub fn accept_line(&mut self, line: &str, event: &GeminiEvent)
        ensures
            final(self)@ == absorb_event(old(self)@, event@, json_value(line@)),
    {
        if self.stopped {
            return ;
        }
        let raw = if self.all_messages.is_some() {
            parse_value(line)
        } else {
            None
        };
        self.accept(event, raw);
    }

    /// Takes in a line that could not be decoded, with the decoder's reason.
    pub fn reject(&mut self, detail: &str, line: &str)
        ensures
            final(self)@ == absorb_malformed(old(self)@, detail@, line@),
    {
        if self.stopped {
            return ;
        }
        let mut diagnostic = followed_by(PARSE_ERROR_TAG, detail);
        diagnostic.append(PARSE_ERROR_JOINT);
        diagnostic.append(line);
        self.backlog.push(diagnostic);
    }

    /// Takes in a failed read, with the system's reason. Reading stops.
    pub fn fault(&mut self, detail: &str)
        ensures
            final(self)@ == absorb_fault(old(self)@, detail@),
    {
        if self.stopped {
            return ;
        }
        self.backlog.push(followed_by(IO_ERROR_TAG, detail));
        self.stopped = true;
    }

    /// The outcome of the invocation, given whether the read deadline
    /// elapsed.
    pub fn finish(self, timed_out: bool) -> (outcome: GeminiResult)
        ensures
            outcome@ == outcome_of(self@, timed_out),
            outcome@.success <==> outcome@.error is None,
    {
        classify(timed_out, self.session_id, self.agent_messages, &self.backlog, self.all_messages)
    }
}

} // verus!
