//! One invocation of the agent as a state machine.
//!
//! The machine decides; its driver acts. The driver performs the action that
//! the current state calls for, reports what it observed, and asks again,
//! until the invocation is closed. The machine never touches a process or a
//! stream itself.

use crate::args::{arguments, build_args};
use crate::dispatcher::{
    absorb, absorb_event, absorb_fault, absorb_malformed, extends, initial_transcript,
    lemma_absorb_extends, outcome_of, same_gathering, Dispatcher, Record, Transcript,
};
use crate::error::{ErrorView, GeminiError};
use crate::event::{is_turn_completed, turn_completed, EventView, GeminiEvent};
use crate::json::json_value;
use crate::outcome::{lemma_timeout_is_failure, GeminiResult, OutcomeView};
use crate::resolver::GEMINI_COMMAND;
use crate::text::{opt_str_text, opt_text, texts, trim, trimmed};
use vstd::prelude::*;
use vstd::string::*;

verus! {

/// How long the read stage may last, in seconds, counted from the moment the
/// process runs.
pub const PROCESS_TIMEOUT_SECS: u64 = 300;

/// How long to let trailing output flush after the turn was completed, in
/// milliseconds.
pub const GRACEFUL_SHUTDOWN_DELAY_MS: u64 = 300;

/// How long to wait for the process to exit on its own before it is killed,
/// in seconds.
pub const WAIT_TIMEOUT_SECS: u64 = 5;

/// What the caller asks of one invocation.
#[derive(Debug)]
pub struct Request {
    /// The instruction for the agent.
    pub prompt: String,
    /// The directory in which the agent runs.
    pub cwd: String,
    pub sandbox: bool,
    /// The session to resume; absent or empty starts a new one.
    pub session_id: Option<String>,
    /// The model to use; absent or empty leaves the choice to the agent.
    pub model: Option<String>,
    /// Whether the outcome carries every event of the stream.
    pub return_all_messages: bool,
    /// Whether the platform's command line needs the prompt escaped.
    pub escape_prompt: bool,
}

/// A request with its texts as character sequences.
pub struct RequestView {
    pub prompt: Seq<char>,
    pub cwd: Seq<char>,
    pub sandbox: bool,
    pub session_id: Option<Seq<char>>,
    pub model: Option<Seq<char>>,
    pub return_all_messages: bool,
    pub escape_prompt: bool,
}

impl View for Request {
    type V = RequestView;

    open spec fn view(&self) -> RequestView {
        RequestView {
            prompt: self.prompt@,
            cwd: self.cwd@,
            sandbox: self.sandbox,
            session_id: opt_text(self.session_id),
            model: opt_text(self.model),
            return_all_messages: self.return_all_messages,
            escape_prompt: self.escape_prompt,
        }
    }
}

/// What the driver reports back after it performed an action.
#[derive(Debug)]
pub enum Observation {
    /// Whether the working directory exists.
    WorkspaceChecked { exists: bool },
    /// Where the executable was found, if anywhere.
    ExecutableResolved { path: Option<String> },
    /// The process runs, with its output attached.
    Spawned,
    /// The system refused to start the process.
    SpawnFailed { reason: String },
    /// The next line of output.
    Line { text: String },
    /// The output has no more lines.
    EndOfStream,
    /// Reading the output failed.
    ReadFailed { reason: String },
    /// The line last handed out is this event.
    Decoded { event: GeminiEvent },
    /// The line last handed out is no event.
    Undecodable { reason: String },
    /// The read deadline elapsed. In the read stage this ends the reading,
    /// whatever was under way.
    DeadlineElapsed,
    /// The pause is over.
    PauseElapsed,
    /// Waiting for the process returned within the time allowed.
    Exited,
    /// The process did not exit within the time allowed.
    ExitWaitElapsed,
    /// The forced termination was issued, whatever the system answered.
    Killed,
    /// The wait that follows the forced termination returned.
    Reaped,
}

/// An observation with its texts as character sequences.
pub enum ObservationView {
    WorkspaceChecked { exists: bool },
    ExecutableResolved { path: Option<Seq<char>> },
    Spawned,
    SpawnFailed { reason: Seq<char> },
    Line { text: Seq<char> },
    EndOfStream,
    ReadFailed { reason: Seq<char> },
    Decoded { event: EventView },
    Undecodable { reason: Seq<char> },
    DeadlineElapsed,
    PauseElapsed,
    Exited,
    ExitWaitElapsed,
    Killed,
    Reaped,
}

impl View for Observation {
    type V = ObservationView;

    open spec fn view(&self) -> ObservationView {
        match self {
            Observation::WorkspaceChecked { exists } => ObservationView::WorkspaceChecked {
                exists: *exists,
            },
            Observation::ExecutableResolved { path } => ObservationView::ExecutableResolved {
                path: opt_text(*path),
            },
            Observation::Spawned => ObservationView::Spawned,
            Observation::SpawnFailed { reason } => ObservationView::SpawnFailed { reason: reason@ },
            Observation::Line { text } => ObservationView::Line { text: text@ },
            Observation::EndOfStream => ObservationView::EndOfStream,
            Observation::ReadFailed { reason } => ObservationView::ReadFailed { reason: reason@ },
            Observation::Decoded { event } => ObservationView::Decoded { event: event@ },
            Observation::Undecodable { reason } => ObservationView::Undecodable { reason: reason@ },
            Observation::DeadlineElapsed => ObservationView::DeadlineElapsed,
            Observation::PauseElapsed => ObservationView::PauseElapsed,
            Observation::Exited => ObservationView::Exited,
            Observation::ExitWaitElapsed => ObservationView::ExitWaitElapsed,
            Observation::Killed => ObservationView::Killed,
            Observation::Reaped => ObservationView::Reaped,
        }
    }
}

/// What the driver is to do next.
#[derive(Debug)]
pub enum Action {
    /// Find out whether the directory exists.
    CheckWorkspace { path: String },
    /// Look the command up on the search path.
    ResolveExecutable { command: String },
    /// Start the process in `cwd`, with no input, its output captured and
    /// its error stream discarded. The read stage that follows may last
    /// `read_deadline_secs` in all, counted from the moment the process
    /// runs.
    Spawn { program: String, args: Vec<String>, cwd: String, read_deadline_secs: u64 },
    /// Read the next line of output, under the read deadline.
    ReadLine,
    /// Decode the line as an event.
    Decode { line: String },
    /// Let `millis` pass, under the read deadline.
    Pause { millis: u64 },
    /// Wait up to `secs` for the process to exit on its own.
    AwaitExit { secs: u64 },
    /// Terminate the process by force.
    Kill,
    /// Wait for the terminated process, without a time limit.
    Reap,
    /// Nothing is left to do: take the result.
    Finish,
}

/// An action with its texts as character sequences.
pub enum ActionView {
    CheckWorkspace { path: Seq<char> },
    ResolveExecutable { command: Seq<char> },
    Spawn { program: Seq<char>, args: Seq<Seq<char>>, cwd: Seq<char>, read_deadline_secs: u64 },
    ReadLine,
    Decode { line: Seq<char> },
    Pause { millis: u64 },
    AwaitExit { secs: u64 },
    Kill,
    Reap,
    Finish,
}

impl View for Action {
    type V = ActionView;

    open spec fn view(&self) -> ActionView {
        match self {
            Action::CheckWorkspace { path } => ActionView::CheckWorkspace { path: path@ },
            Action::ResolveExecutable { command } => ActionView::ResolveExecutable {
                command: command@,
            },
            Action::Spawn { program, args, cwd, read_deadline_secs } => ActionView::Spawn {
                program: program@,
                args: texts(args@),
                cwd: cwd@,
                read_deadline_secs: *read_deadline_secs,
            },
            Action::ReadLine => ActionView::ReadLine,
            Action::Decode { line } => ActionView::Decode { line: line@ },
            Action::Pause { millis } => ActionView::Pause { millis: *millis },
            Action::AwaitExit { secs } => ActionView::AwaitExit { secs: *secs },
            Action::Kill => ActionView::Kill,
            Action::Reap => ActionView::Reap,
            Action::Finish => ActionView::Finish,
        }
    }
}

/// The result of an invocation: an outcome, or the failure that kept the
/// invocation from having one.
pub type ResultView = Result<OutcomeView, ErrorView>;

/// The view of a result.
pub open spec fn result_view(result: Result<GeminiResult, GeminiError>) -> ResultView {
    match result {
        Ok(outcome) => Ok(outcome@),
        Err(error) => Err(error@),
    }
}

/// The view of a result that may not be there yet.
pub open spec fn opt_result_view(result: Option<Result<GeminiResult, GeminiError>>) -> Option<
    ResultView,
> {
    match result {
        Some(result) => Some(result_view(result)),
        None => None,
    }
}

/// The states of an invocation.
pub enum InvocationView {
    /// Nothing is known of the working directory yet.
    CheckingWorkspace { request: RequestView },
    /// The working directory exists; the executable is being looked up.
    Resolving { request: RequestView },
    /// The process is being started.
    Spawning { program: Seq<char>, args: Seq<Seq<char>>, cwd: Seq<char>, retain_all: bool },
    /// The process runs and its output is being read.
    Reading { transcript: Transcript },
    /// A line was read and is being decoded.
    Decoding { transcript: Transcript, line: Seq<char> },
    /// The turn was completed; trailing output is given time to flush.
    Settling { transcript: Transcript },
    /// Reading is over; the process is given time to exit on its own.
    AwaitingExit { transcript: Transcript, timed_out: bool },
    /// The process did not exit in time and is being terminated.
    Killing { transcript: Transcript, timed_out: bool },
    /// The terminated process is being waited for.
    Reaping { transcript: Transcript, timed_out: bool },
    /// The invocation is over.
    Closed { result: ResultView },
}

/// The state in which an invocation begins.
pub open spec fn initial(request: RequestView) -> InvocationView {
    InvocationView::CheckingWorkspace { request }
}

/// The action that a state calls for.
pub open spec fn pending(state: InvocationView) -> ActionView {
    match state {
        InvocationView::CheckingWorkspace { request } => ActionView::CheckWorkspace {
            path: request.cwd,
        },
        InvocationView::Resolving { .. } => ActionView::ResolveExecutable {
            command: GEMINI_COMMAND@,
        },
        InvocationView::Spawning { program, args, cwd, .. } => ActionView::Spawn {
            program,
            args,
            cwd,
            read_deadline_secs: PROCESS_TIMEOUT_SECS,
        },
        InvocationView::Reading { .. } => ActionView::ReadLine,
        InvocationView::Decoding { line, .. } => ActionView::Decode { line },
        InvocationView::Settling { .. } => ActionView::Pause { millis: GRACEFUL_SHUTDOWN_DELAY_MS },
        InvocationView::AwaitingExit { .. } => ActionView::AwaitExit { secs: WAIT_TIMEOUT_SECS },
        InvocationView::Killing { .. } => ActionView::Kill,
        InvocationView::Reaping { .. } => ActionView::Reap,
        InvocationView::Closed { .. } => ActionView::Finish,
    }
}

/// The state that follows `state` when the driver reports `observation`.
/// An observation that does not answer the pending action changes nothing.
pub open spec fn transition(state: InvocationView, observation: ObservationView) -> InvocationView {
    match state {
        InvocationView::CheckingWorkspace { request } => match observation {
            ObservationView::WorkspaceChecked { exists } => if exists {
                InvocationView::Resolving { request }
            } else {
                InvocationView::Closed { result: Err(ErrorView::WorkspaceNotFound(request.cwd)) }
            },
            _ => state,
        },
        InvocationView::Resolving { request } => match observation {
            ObservationView::ExecutableResolved { path } => match path {
                Some(program) => InvocationView::Spawning {
                    program,
                    args: arguments(
                        request.prompt,
                        request.sandbox,
                        request.session_id,
                        request.model,
                        request.escape_prompt,
                    ),
                    cwd: request.cwd,
                    retain_all: request.return_all_messages,
                },
                None => InvocationView::Closed { result: Err(ErrorView::GeminiNotFound) },
            },
            _ => state,
        },
        InvocationView::Spawning { retain_all, .. } => match observation {
            ObservationView::Spawned => InvocationView::Reading {
                transcript: initial_transcript(retain_all),
            },
            ObservationView::SpawnFailed { reason } => InvocationView::Closed {
                result: Err(ErrorView::ProcessSpawnError(reason)),
            },
            _ => state,
        },
        InvocationView::Reading { transcript } => match observation {
            ObservationView::Line { text } => if trimmed(text).len() == 0 {
                state
            } else {
                InvocationView::Decoding { transcript, line: trimmed(text) }
            },
            ObservationView::EndOfStream => InvocationView::AwaitingExit {
                transcript,
                timed_out: false,
            },
            ObservationView::ReadFailed { reason } => InvocationView::AwaitingExit {
                transcript: absorb_fault(transcript, reason),
                timed_out: false,
            },
            ObservationView::DeadlineElapsed => InvocationView::AwaitingExit {
                transcript,
                timed_out: true,
            },
            _ => state,
        },
        InvocationView::Decoding { transcript, line } => match observation {
            ObservationView::Decoded { event } => if turn_completed(event) {
                InvocationView::Settling {
                    transcript: absorb_event(transcript, event, json_value(line)),
                }
            } else {
                InvocationView::Reading {
                    transcript: absorb_event(transcript, event, json_value(line)),
                }
            },
            ObservationView::Undecodable { reason } => InvocationView::Reading {
                transcript: absorb_malformed(transcript, reason, line),
            },
            ObservationView::DeadlineElapsed => InvocationView::AwaitingExit {
                transcript,
                timed_out: true,
            },
            _ => state,
        },
        InvocationView::Settling { transcript } => match observation {
            ObservationView::PauseElapsed => InvocationView::AwaitingExit {
                transcript,
                timed_out: false,
            },
            ObservationView::DeadlineElapsed => InvocationView::AwaitingExit {
                transcript,
                timed_out: true,
            },
            _ => state,
        },
        InvocationView::AwaitingExit { transcript, timed_out } => match observation {
            ObservationView::Exited => InvocationView::Closed {
                result: Ok(outcome_of(transcript, timed_out)),
            },
            ObservationView::ExitWaitElapsed => InvocationView::Killing { transcript, timed_out },
            _ => state,
        },
        InvocationView::Killing { transcript, timed_out } => match observation {
            ObservationView::Killed => InvocationView::Reaping { transcript, timed_out },
            _ => state,
        },
        InvocationView::Reaping { transcript, timed_out } => match observation {
            ObservationView::Reaped => InvocationView::Closed {
                result: Ok(outcome_of(transcript, timed_out)),
            },
            _ => state,
        },
        InvocationView::Closed { .. } => state,
    }
}

/// The state after a sequence of observations, taken in order.
pub open spec fn run(state: InvocationView, observations: Seq<ObservationView>) -> InvocationView
    decreases observations.len(),
{
    if observations.len() == 0 {
        state
    } else {
        transition(run(state, observations.drop_last()), observations.last())
    }
}

/// Whether a state belongs to an invocation whose process was started and
/// not yet waited for.
pub open spec fn holds_process(state: InvocationView) -> bool {
    state is Reading || state is Decoding || state is Settling || state is AwaitingExit
        || state is Killing || state is Reaping
}

/// Whether a state belongs to the read stage.
pub open spec fn in_read_stage(state: InvocationView) -> bool {
    state is Reading || state is Decoding || state is Settling
}

/// What a state has gathered from the stream, where it holds a transcript.
pub open spec fn transcript_of(state: InvocationView) -> Option<Transcript> {
    match state {
        InvocationView::Reading { transcript } => Some(transcript),
        InvocationView::Decoding { transcript, .. } => Some(transcript),
        InvocationView::Settling { transcript } => Some(transcript),
        InvocationView::AwaitingExit { transcript, .. } => Some(transcript),
        InvocationView::Killing { transcript, .. } => Some(transcript),
        InvocationView::Reaping { transcript, .. } => Some(transcript),
        _ => None,
    }
}

/// Whether reading is over with `t` as its transcript: the state is past
/// the reads and holds `t`, or it is closed with the outcome of `t`.
pub open spec fn reading_over_with(state: InvocationView, t: Transcript) -> bool {
    match state {
        InvocationView::Settling { transcript } => transcript == t,
        InvocationView::AwaitingExit { transcript, .. } => transcript == t,
        InvocationView::Killing { transcript, .. } => transcript == t,
        InvocationView::Reaping { transcript, .. } => transcript == t,
        InvocationView::Closed { result } => result == Ok::<OutcomeView, ErrorView>(
            outcome_of(t, false),
        ) || result == Ok::<OutcomeView, ErrorView>(outcome_of(t, true)),
        _ => false,
    }
}

/// Whether a state is part of a shutdown that follows a timeout.
pub open spec fn timeout_recorded(state: InvocationView) -> bool {
    match state {
        InvocationView::AwaitingExit { timed_out, .. } => timed_out,
        InvocationView::Killing { timed_out, .. } => timed_out,
        InvocationView::Reaping { timed_out, .. } => timed_out,
        _ => false,
    }
}

/// Whether the read deadline has elapsed for a state: it is shutting down
/// with the timeout on record, or it is closed with the outcome of one.
pub open spec fn deadline_passed(state: InvocationView) -> bool {
    match state {
        InvocationView::Closed { result } => exists|t: Transcript|
            result == Ok::<OutcomeView, ErrorView>(#[trigger] outcome_of(t, true)),
        _ => timeout_recorded(state),
    }
}

/// Running two sequences of observations one after the other is running
/// their concatenation.
pub proof fn lemma_run_concat(
    state: InvocationView,
    first: Seq<ObservationView>,
    second: Seq<ObservationView>,
)
    ensures
        run(state, first + second) == run(run(state, first), second),
    decreases second.len(),
{
    if second.len() == 0 {
        assert(first + second =~= first);
    } else {
        assert((first + second).drop_last() =~= first + second.drop_last());
        lemma_run_concat(state, first, second.drop_last());
    }
}

/// A closed invocation stays as it is, whatever is reported to it.
pub proof fn lemma_closed_is_final(state: InvocationView, observations: Seq<ObservationView>)
    requires
        state is Closed,
    ensures
        run(state, observations) == state,
    decreases observations.len(),
{
    if observations.len() > 0 {
        lemma_closed_is_final(state, observations.drop_last());
    }
}

/// Where the working directory does not exist, the invocation fails with
/// that finding at once, and whatever is reported afterwards it never asks
/// for a process to be started.
pub proof fn lemma_missing_workspace_fails(request: RequestView, rest: Seq<ObservationView>)
    ensures
        pending(initial(request)) == (ActionView::CheckWorkspace { path: request.cwd }),
        run(
            initial(request),
            seq![ObservationView::WorkspaceChecked { exists: false }] + rest,
        ) == (InvocationView::Closed { result: Err(ErrorView::WorkspaceNotFound(request.cwd)) }),
        pending(
            run(initial(request), seq![ObservationView::WorkspaceChecked { exists: false }] + rest),
        ) is Finish,
{
    let first = seq![ObservationView::WorkspaceChecked { exists: false }];
    assert(first.drop_last() =~= Seq::<ObservationView>::empty());
    assert(run(initial(request), first.drop_last()) == initial(request));
    assert(run(initial(request), first) == transition(initial(request), first.last()));
    lemma_run_concat(initial(request), first, rest);
    lemma_closed_is_final(run(initial(request), first), rest);
}

/// A process is asked for only once the working directory was found to
/// exist and the executable was found, in that order.
pub proof fn lemma_spawn_needs_both_checks(state: InvocationView, observation: ObservationView)
    ensures
        transition(state, observation) is Spawning && !(state is Spawning) ==> state is Resolving
            && observation matches ObservationView::ExecutableResolved { path: Some(_) },
        transition(state, observation) is Resolving && !(state is Resolving) ==> state
            is CheckingWorkspace && observation == (ObservationView::WorkspaceChecked {
            exists: true,
        }),
        pending(state) is Spawn <==> state is Spawning,
{
}

/// However the read stage ends, the shutdown follows: a started process is
/// first given time to exit, it is killed only when that time has passed,
/// and the invocation closes only when the process was waited for.
pub proof fn lemma_shutdown_always_runs(state: InvocationView, observation: ObservationView)
    requires
        holds_process(state),
    ensures
        holds_process(transition(state, observation)) || transition(state, observation) is Closed,
        in_read_stage(state) ==> in_read_stage(transition(state, observation)) || transition(
            state,
            observation,
        ) is AwaitingExit,
        transition(state, observation) is Closed ==> (state is AwaitingExit && observation
            is Exited) || (state is Reaping && observation is Reaped),
        transition(state, observation) is Killing ==> state is Killing || (state is AwaitingExit
            && observation is ExitWaitElapsed),
        transition(state, observation) is Reaping ==> state is Reaping || (state is Killing
            && observation is Killed),
        transition(state, observation) matches InvocationView::Closed { result } ==> result == Ok::<
            OutcomeView,
            ErrorView,
        >(outcome_of(transcript_of(state)->0, timeout_recorded(state))),
{
}

/// A line that is read and decoded is one record for the transcript: an
/// event with the line as a JSON value, or a line that is no event with the
/// decoder's reason. The line is taken without the whitespace around it,
/// and a line that holds nothing else is passed over.
pub proof fn lemma_line_is_one_record(
    transcript: Transcript,
    text: Seq<char>,
    event: EventView,
    reason: Seq<char>,
)
    ensures
        trimmed(text).len() == 0 ==> transition(
            InvocationView::Reading { transcript },
            ObservationView::Line { text },
        ) == (InvocationView::Reading { transcript }),
        trimmed(text).len() > 0 ==> pending(
            transition(InvocationView::Reading { transcript }, ObservationView::Line { text }),
        ) == (ActionView::Decode { line: trimmed(text) }),
        trimmed(text).len() > 0 ==> transcript_of(
            run(
                InvocationView::Reading { transcript },
                seq![ObservationView::Line { text }, ObservationView::Decoded { event }],
            ),
        ) == Some(
            absorb(transcript, Record::Event { event, raw: json_value(trimmed(text)) }),
        ),
        trimmed(text).len() > 0 ==> run(
            InvocationView::Reading { transcript },
            seq![ObservationView::Line { text }, ObservationView::Undecodable { reason }],
        ) == (InvocationView::Reading {
            transcript: absorb(transcript, Record::Malformed { detail: reason, line: trimmed(text) }),
        }),
{
    let start = InvocationView::Reading { transcript };
    let line = ObservationView::Line { text };
    let decoded = seq![line, ObservationView::Decoded { event }];
    let undecodable = seq![line, ObservationView::Undecodable { reason }];
    assert(decoded.drop_last() =~= seq![line]);
    assert(undecodable.drop_last() =~= seq![line]);
    assert(seq![line].drop_last() =~= Seq::<ObservationView>::empty());
    assert(run(start, seq![line]) == transition(run(start, Seq::empty()), line));
    assert(run(start, decoded) == transition(run(start, seq![line]), decoded.last()));
    assert(run(start, undecodable) == transition(run(start, seq![line]), undecodable.last()));
}

/// A line that is no event sends the invocation back to reading with
/// nothing lost: what was gathered before is still there.
pub proof fn lemma_undecodable_line_loses_nothing(
    transcript: Transcript,
    line: Seq<char>,
    reason: Seq<char>,
)
    ensures
        transition(
            InvocationView::Decoding { transcript, line },
            ObservationView::Undecodable { reason },
        ) == (InvocationView::Reading { transcript: absorb_malformed(transcript, reason, line) }),
        same_gathering(absorb_malformed(transcript, reason, line), transcript),
{
}

/// No observation takes anything away from what an invocation has gathered.
pub proof fn lemma_transition_extends(state: InvocationView, observation: ObservationView)
    requires
        transcript_of(state) is Some,
        transcript_of(transition(state, observation)) is Some,
    ensures
        extends(
            transcript_of(state)->0,
            transcript_of(transition(state, observation))->0,
        ),
{
    match (state, observation) {
        (
            InvocationView::Decoding { transcript, line },
            ObservationView::Decoded { event },
        ) => {
            lemma_absorb_extends(
                transcript,
                Record::Event { event, raw: json_value(line) },
            );
        },
        (
            InvocationView::Decoding { transcript, line },
            ObservationView::Undecodable { reason },
        ) => {
            lemma_absorb_extends(
                transcript,
                Record::Malformed { detail: reason, line },
            );
        },
        (InvocationView::Reading { transcript }, ObservationView::ReadFailed { reason }) => {
            lemma_absorb_extends(
                transcript,
                Record::Fault { detail: reason },
            );
        },
        _ => {},
    }
}

/// Once reading is over, no observation changes the transcript.
pub proof fn lemma_reading_over_stays(
    state: InvocationView,
    t: Transcript,
    observation: ObservationView,
)
    requires
        reading_over_with(state, t),
    ensures
        reading_over_with(transition(state, observation), t),
{
}

/// Once reading is over, no sequence of observations changes the
/// transcript.
pub proof fn lemma_reading_over_for_good(
    state: InvocationView,
    t: Transcript,
    observations: Seq<ObservationView>,
)
    requires
        reading_over_with(state, t),
    ensures
        reading_over_with(run(state, observations), t),
    decreases observations.len(),
{
    if observations.len() > 0 {
        lemma_reading_over_for_good(state, t, observations.drop_last());
        lemma_reading_over_stays(run(state, observations.drop_last()), t, observations.last());
    }
}

/// When an event completes the turn, reading is over: whatever the driver
/// reports afterwards, lines included, the transcript is the one that the
/// completing event left.
pub proof fn lemma_no_lines_after_completion(
    transcript: Transcript,
    line: Seq<char>,
    event: EventView,
    rest: Seq<ObservationView>,
)
    requires
        turn_completed(event),
    ensures
        reading_over_with(
            run(
                transition(
                    InvocationView::Decoding { transcript, line },
                    ObservationView::Decoded { event },
                ),
                rest,
            ),
            absorb_event(transcript, event, json_value(line)),
        ),
{
    let after = transition(
        InvocationView::Decoding { transcript, line },
        ObservationView::Decoded { event },
    );
    lemma_reading_over_for_good(after, absorb_event(transcript, event, json_value(line)), rest);
}

/// A timeout on record stays on record.
pub proof fn lemma_deadline_passed_stays(state: InvocationView, observation: ObservationView)
    requires
        deadline_passed(state),
    ensures
        deadline_passed(transition(state, observation)),
{
    match state {
        InvocationView::AwaitingExit { transcript, .. } => {
            assert(outcome_of(transcript, true) == outcome_of(transcript, true));
        },
        InvocationView::Reaping { transcript, .. } => {
            assert(outcome_of(transcript, true) == outcome_of(transcript, true));
        },
        _ => {},
    }
}

/// A timeout on record stays on record over any sequence of observations.
pub proof fn lemma_deadline_passed_for_good(
    state: InvocationView,
    observations: Seq<ObservationView>,
)
    requires
        deadline_passed(state),
    ensures
        deadline_passed(run(state, observations)),
    decreases observations.len(),
{
    if observations.len() > 0 {
        lemma_deadline_passed_for_good(state, observations.drop_last());
        lemma_deadline_passed_stays(run(state, observations.drop_last()), observations.last());
    }
}

/// When the read deadline elapses anywhere in the read stage, the pause
/// that follows the end of the turn included, the invocation shuts the
/// process down and, whatever is reported afterwards, can only close as a
/// failure whose error begins with "Process timeout.".
pub proof fn lemma_deadline_means_timeout(state: InvocationView, rest: Seq<ObservationView>)
    requires
        in_read_stage(state),
    ensures
        transition(state, ObservationView::DeadlineElapsed) == (InvocationView::AwaitingExit {
            transcript: transcript_of(state)->0,
            timed_out: true,
        }),
        run(transition(state, ObservationView::DeadlineElapsed), rest) matches InvocationView::Closed {
            result,
        } ==> result matches Ok(outcome) && !outcome.success && outcome.error is Some
            && "Process timeout."@.is_prefix_of(outcome.error->0),
{
    let after = transition(state, ObservationView::DeadlineElapsed);
    lemma_deadline_passed_for_good(after, rest);
    let end = run(after, rest);
    if end is Closed {
        let t = choose|t: Transcript|
            end->result == Ok::<OutcomeView, ErrorView>(#[trigger] outcome_of(t, true));
        lemma_timeout_is_failure(
            t.session_id,
            t.agent_message,
            t.backlog,
            t.retained,
        );
    }
}

/// Where an invocation stands, with what it holds there.
enum Stage {
    CheckingWorkspace { request: Request },
    Resolving { request: Request },
    Spawning { program: String, args: Vec<String>, cwd: String, retain_all: bool },
    Reading { dispatcher: Dispatcher },
    Decoding { dispatcher: Dispatcher, line: String },
    Settling { dispatcher: Dispatcher },
    AwaitingExit { dispatcher: Dispatcher, timed_out: bool },
    Killing { dispatcher: Dispatcher, timed_out: bool },
    Reaping { dispatcher: Dispatcher, timed_out: bool },
    Closed { result: Result<GeminiResult, GeminiError> },
}

/// One invocation of the agent, from the check of its working directory to
/// its result.
pub struct Invocation {
    stage: Stage,
}

impl View for Invocation {
    type V = InvocationView;

    closed spec fn view(&self) -> InvocationView {
        match self.stage {
            Stage::CheckingWorkspace { request } => InvocationView::CheckingWorkspace {
                request: request@,
            },
            Stage::Resolving { request } => InvocationView::Resolving { request: request@ },
            Stage::Spawning { program, args, cwd, retain_all } => InvocationView::Spawning {
                program: program@,
                args: texts(args@),
                cwd: cwd@,
                retain_all,
            },
            Stage::Reading { dispatcher } => InvocationView::Reading { transcript: dispatcher@ },
            Stage::Decoding { dispatcher, line } => InvocationView::Decoding {
                transcript: dispatcher@,
                line: line@,
            },
            Stage::Settling { dispatcher } => InvocationView::Settling { transcript: dispatcher@ },
            Stage::AwaitingExit { dispatcher, timed_out } => InvocationView::AwaitingExit {
                transcript: dispatcher@,
                timed_out,
            },
            Stage::Killing { dispatcher, timed_out } => InvocationView::Killing {
                transcript: dispatcher@,
                timed_out,
            },
            Stage::Reaping { dispatcher, timed_out } => InvocationView::Reaping {
                transcript: dispatcher@,
                timed_out,
            },
            Stage::Closed { result } => InvocationView::Closed { result: result_view(result) },
        }
    }
}

/// The text of an optional string, borrowed.
fn as_text(text: &Option<String>) -> (slice: Option<&str>)
    ensures
        opt_str_text(slice) == opt_text(*text),
{
    match text {
        Some(text) => Some(text.as_str()),
        None => None,
    }
}

/// A copy of a list of strings.
fn copy_strings(strings: &Vec<String>) -> (copy: Vec<String>)
    ensures
        texts(copy@) == texts(strings@),
{
    let mut copy: Vec<String> = Vec::new();
    let mut i: usize = 0;
    while i < strings.len()
        invariant
            i <= strings@.len(),
            texts(copy@) == texts(strings@.take(i as int)),
        decreases strings@.len() - i,
    {
        let item = strings[i].clone();
        let ghost before = copy@;
        copy.push(item);
        assert(texts(copy@) =~= texts(before).push(item@));
        assert(texts(strings@.take(i + 1)) =~= texts(strings@.take(i as int)).push(
            strings@[i as int]@,
        ));
        i = i + 1;
    }
    assert(strings@.take(i as int) =~= strings@);
    copy
}

impl Invocation {
    /// An invocation that has done nothing yet. Its first action is to check
    /// the working directory; no process is started before that check and
    /// the search for the executable have succeeded.
    pub fn start(request: Request) -> (invocation: Invocation)
        ensures
            invocation@ == initial(request@),
    {
        Invocation { stage: Stage::CheckingWorkspace { request } }
    }

    /// What the driver is to do next.
    pub fn action(&self) -> (action: Action)
        ensures
            action@ == pending(self@),
    {
        match &self.stage {
            Stage::CheckingWorkspace { request } => Action::CheckWorkspace {
                path: request.cwd.clone(),
            },
            Stage::Resolving { .. } => Action::ResolveExecutable {
                command: GEMINI_COMMAND.to_owned(),
            },
            Stage::Spawning { program, args, cwd, .. } => Action::Spawn {
                program: program.clone(),
                args: copy_strings(args),
                cwd: cwd.clone(),
                read_deadline_secs: PROCESS_TIMEOUT_SECS,
            },
            Stage::Reading { .. } => Action::ReadLine,
            Stage::Decoding { line, .. } => Action::Decode { line: line.clone() },
            Stage::Settling { .. } => Action::Pause { millis: GRACEFUL_SHUTDOWN_DELAY_MS },
            Stage::AwaitingExit { .. } => Action::AwaitExit { secs: WAIT_TIMEOUT_SECS },
            Stage::Killing { .. } => Action::Kill,
            Stage::Reaping { .. } => Action::Reap,
            Stage::Closed { .. } => Action::Finish,
        }
    }

    /// Whether the invocation is over.
    pub fn is_closed(&self) -> (closed: bool)
        ensures
            closed == self@ is Closed,
    {
        match &self.stage {
            Stage::Closed { .. } => true,
            _ => false,
        }
    }

    /// The result of the invocation, once it is over.
    pub fn into_result(self) -> (result: Option<Result<GeminiResult, GeminiError>>)
        ensures
            opt_result_view(result) == match self@ {
                InvocationView::Closed { result } => Some(result),
                _ => None,
            },
    {
        match self.stage {
            Stage::Closed { result } => Some(result),
            _ => None,
        }
    }

    /// Takes in what the driver observed and moves to the state that
    /// follows.
    pub fn step(self, observation: Observation) -> (next: Invocation)
        ensures
            next@ == transition(self@, observation@),
    {
        let stage = match self.stage {
            Stage::CheckingWorkspace { request } => match observation {
                Observation::WorkspaceChecked { exists } => if exists {
                    Stage::Resolving { request }
                } else {
                    Stage::Closed { result: Err(GeminiError::WorkspaceNotFound(request.cwd)) }
                },
                _ => Stage::CheckingWorkspace { request },
            },
            Stage::Resolving { request } => match observation {
                Observation::ExecutableResolved { path } => match path {
                    Some(program) => {
                        let args = build_args(
                            request.prompt.as_str(),
                            request.sandbox,
                            as_text(&request.session_id),
                            as_text(&request.model),
                            request.escape_prompt,
                        );
                        Stage::Spawning {
                            program,
                            args,
                            cwd: request.cwd,
                            retain_all: request.return_all_messages,
                        }
                    },
                    None => Stage::Closed { result: Err(GeminiError::GeminiNotFound) },
                },
                _ => Stage::Resolving { request },
            },
            Stage::Spawning { program, args, cwd, retain_all } => match observation {
                Observation::Spawned => Stage::Reading { dispatcher: Dispatcher::new(retain_all) },
                Observation::SpawnFailed { reason } => Stage::Closed {
                    result: Err(GeminiError::ProcessSpawnError(reason)),
                },
                _ => Stage::Spawning { program, args, cwd, retain_all },
            },
            Stage::Reading { dispatcher } => match observation {
                Observation::Line { text } => {
                    let line = trim(text.as_str());
                    if line.is_empty() {
                        Stage::Reading { dispatcher }
                    } else {
                        Stage::Decoding { dispatcher, line: line.to_owned() }
                    }
                },
                Observation::EndOfStream => Stage::AwaitingExit { dispatcher, timed_out: false },
                Observation::ReadFailed { reason } => {
                    let mut dispatcher = dispatcher;
                    dispatcher.fault(reason.as_str());
                    Stage::AwaitingExit { dispatcher, timed_out: false }
                },
                Observation::DeadlineElapsed => Stage::AwaitingExit { dispatcher, timed_out: true },
                _ => Stage::Reading { dispatcher },
            },
            Stage::Decoding { dispatcher, line } => match observation {
                Observation::Decoded { event } => {
                    let mut dispatcher = dispatcher;
                    dispatcher.accept_line(line.as_str(), &event);
                    if is_turn_completed(&event) {
                        Stage::Settling { dispatcher }
                    } else {
                        Stage::Reading { dispatcher }
                    }
                },
                Observation::Undecodable { reason } => {
                    let mut dispatcher = dispatcher;
                    dispatcher.reject(reason.as_str(), line.as_str());
                    Stage::Reading { dispatcher }
                },
                Observation::DeadlineElapsed => Stage::AwaitingExit { dispatcher, timed_out: true },
                _ => Stage::Decoding { dispatcher, line },
            },
            Stage::Settling { dispatcher } => match observation {
                Observation::PauseElapsed => Stage::AwaitingExit { dispatcher, timed_out: false },
                Observation::DeadlineElapsed => Stage::AwaitingExit { dispatcher, timed_out: true },
                _ => Stage::Settling { dispatcher },
            },
            Stage::AwaitingExit { dispatcher, timed_out } => match observation {
                Observation::Exited => Stage::Closed { result: Ok(dispatcher.finish(timed_out)) },
                Observation::ExitWaitElapsed => Stage::Killing { dispatcher, timed_out },
                _ => Stage::AwaitingExit { dispatcher, timed_out },
            },
            Stage::Killing { dispatcher, timed_out } => match observation {
                Observation::Killed => Stage::Reaping { dispatcher, timed_out },
                _ => Stage::Killing { dispatcher, timed_out },
            },
            Stage::Reaping { dispatcher, timed_out } => match observation {
                Observation::Reaped => Stage::Closed { result: Ok(dispatcher.finish(timed_out)) },
                _ => Stage::Reaping { dispatcher, timed_out },
            },
            Stage::Closed { result } => Stage::Closed { result },
        };
        Invocation { stage }
    }
}

} // verus!
