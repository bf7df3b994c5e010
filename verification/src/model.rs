//! The conversation loop as a state machine over mathematical values.
//!
//! A session waits for a line of input, streams the reply to it, and waits
//! again, until the line is the command to leave. This module says what each
//! event does to the state, and proves what holds of every run.

use crate::message::{MessageView, Role};
use crate::reply::{chunk_text, fragments, stream_text};
use crate::request::RequestView;
use crate::settings::SettingsView;
use crate::text::{is_exit_line, trimmed};
use crate::transcript::{lemma_ordered_push, next_role, ordered};
use vstd::prelude::*;

verus! {

/// The text of the system message that opens every transcript.
pub const SYSTEM_PROMPT: &'static str = "You are a helpful assistant.";

/// Where a session stands in the loop.
#[derive(Clone, Copy, Debug, PartialEq, Eq, Structural)]
pub enum Phase {
    /// The next event is a line of input.
    AwaitingInput,
    /// A request is out, and the reply to it is arriving in chunks.
    Streaming,
    /// The user has left. Nothing happens any more.
    Terminated,
}

/// The mathematical value of a session.
pub struct SessionView {
    pub settings: SettingsView,
    pub phase: Phase,
    pub transcript: Seq<MessageView>,
    /// The part of the reply that has arrived in the current turn.
    pub reply: Seq<char>,
}

/// What can happen to a session.
pub enum Event {
    /// A line was read from the terminal.
    Line(Seq<char>),
    /// A chunk of the reply arrived, with these deltas.
    Chunk(Seq<Option<Seq<char>>>),
    /// The stream of the reply came to its end.
    StreamEnded,
    /// The stream of the reply broke off with an error.
    StreamFailed,
}

/// The state in which a session starts.
pub open spec fn initial(settings: SettingsView) -> SessionView {
    SessionView {
        settings,
        phase: Phase::AwaitingInput,
        transcript: seq![MessageView { role: Role::System, content: SYSTEM_PROMPT@ }],
        reply: Seq::empty(),
    }
}

/// The state after the user has said `text`: the text stands in the
/// transcript as a user message, and the reply to it is awaited.
pub open spec fn after_say(s: SessionView, text: Seq<char>) -> SessionView {
    SessionView {
        phase: Phase::Streaming,
        transcript: s.transcript.push(MessageView { role: Role::User, content: text }),
        reply: Seq::empty(),
        ..s
    }
}

/// The state after the user has left.
pub open spec fn after_quit(s: SessionView) -> SessionView {
    SessionView { phase: Phase::Terminated, ..s }
}

/// The state after a line of input: the command to leave ends the session,
/// and any other line, the empty one too, is said as it reads when trimmed.
pub open spec fn after_line(s: SessionView, line: Seq<char>) -> SessionView {
    if is_exit_line(line) {
        after_quit(s)
    } else {
        after_say(s, trimmed(line))
    }
}

/// The state after a chunk of the reply: its fragments are added to the
/// reply gathered so far.
pub open spec fn after_chunk(s: SessionView, deltas: Seq<Option<Seq<char>>>) -> SessionView {
    SessionView { reply: s.reply + chunk_text(deltas), ..s }
}

/// The state after the stream of the reply is over, however it ended: what
/// was gathered stands in the transcript as an assistant message, and the
/// next line of input is awaited.
pub open spec fn after_stream(s: SessionView) -> SessionView {
    SessionView {
        phase: Phase::AwaitingInput,
        transcript: s.transcript.push(MessageView { role: Role::Assistant, content: s.reply }),
        reply: Seq::empty(),
        ..s
    }
}

/// The request that is sent for the reply to the last user message: the
/// whole transcript, under the settings of the session, to be answered in
/// chunks.
pub open spec fn request_for(s: SessionView) -> RequestView {
    RequestView {
        model: s.settings.model,
        messages: s.transcript,
        max_tokens: s.settings.max_tokens,
        temperature_bits: s.settings.temperature_bits,
        stream: true,
    }
}

/// What the loop has to do after a line of input.
pub enum ActionView {
    /// Say farewell and end the program.
    Quit,
    /// Send this request and stream the reply to it.
    Send(RequestView),
}

/// What the loop has to do after `line` was read in state `s`.
pub open spec fn action_for(s: SessionView, line: Seq<char>) -> ActionView {
    if is_exit_line(line) {
        ActionView::Quit
    } else {
        ActionView::Send(request_for(after_line(s, line)))
    }
}

/// What the loop has to do after it has asked the stream of a reply for its
/// next item.
pub enum ProgressView {
    /// Show these fragments, and ask the stream again.
    Show(Seq<Seq<char>>),
    /// Leave the stream: the turn is over.
    Done,
}

/// What the loop has to do after event `e` of a stream: it shows the
/// fragments of a chunk and goes on, and it stops at the end of the stream
/// and at its first failure.
pub open spec fn progress_for(e: Event) -> ProgressView {
    match e {
        Event::Chunk(deltas) => ProgressView::Show(fragments(deltas)),
        _ => ProgressView::Done,
    }
}

/// Whether an event can happen in a state.
pub open spec fn enabled(s: SessionView, e: Event) -> bool {
    match e {
        Event::Line(_) => s.phase == Phase::AwaitingInput,
        Event::Chunk(_) => s.phase == Phase::Streaming,
        Event::StreamEnded => s.phase == Phase::Streaming,
        Event::StreamFailed => s.phase == Phase::Streaming,
    }
}

/// The state after an event. An event that cannot happen in a state leaves
/// it as it is.
pub open spec fn step(s: SessionView, e: Event) -> SessionView {
    if !enabled(s, e) {
        s
    } else {
        match e {
            Event::Line(line) => after_line(s, line),
            Event::Chunk(deltas) => after_chunk(s, deltas),
            Event::StreamEnded => after_stream(s),
            Event::StreamFailed => after_stream(s),
        }
    }
}

/// The state after a run of events, first to last.
pub open spec fn run(s: SessionView, events: Seq<Event>) -> SessionView
    decreases events.len(),
{
    if events.len() == 0 {
        s
    } else {
        step(run(s, events.drop_last()), events.last())
    }
}

/// What holds of a session at all times: the transcript is ordered, it ends
/// with a user message exactly while the reply to that message is streamed,
/// and no part of a reply is held outside a stream.
pub open spec fn consistent(s: SessionView) -> bool {
    &&& ordered(s.transcript)
    &&& s.phase == Phase::Streaming <==> next_role(s.transcript) == Role::Assistant
    &&& s.phase != Phase::Streaming ==> s.reply.len() == 0
}

/// A session starts in a consistent state.
pub proof fn lemma_initial_consistent(settings: SettingsView)
    ensures
        consistent(initial(settings)),
        initial(settings).transcript.len() == 1,
{
}

/// Every event keeps a session consistent.
pub proof fn lemma_step_consistent(s: SessionView, e: Event)
    requires
        consistent(s),
    ensures
        consistent(step(s, e)),
{
    if enabled(s, e) {
        match e {
            Event::Line(line) => {
                if !is_exit_line(line) {
                    lemma_ordered_push(
                        s.transcript,
                        MessageView { role: Role::User, content: trimmed(line) },
                    );
                }
            },
            Event::Chunk(_) => {},
            Event::StreamEnded => {
                lemma_ordered_push(
                    s.transcript,
                    MessageView { role: Role::Assistant, content: s.reply },
                );
            },
            Event::StreamFailed => {
                lemma_ordered_push(
                    s.transcript,
                    MessageView { role: Role::Assistant, content: s.reply },
                );
            },
        }
    }
}

/// Every run of events keeps a session consistent.
pub proof fn lemma_run_consistent(s: SessionView, events: Seq<Event>)
    requires
        consistent(s),
    ensures
        consistent(run(s, events)),
    decreases events.len(),
{
    if events.len() > 0 {
        lemma_run_consistent(s, events.drop_last());
        lemma_step_consistent(run(s, events.drop_last()), events.last());
    }
}

/// The ordering of transcripts: whatever happens in a session, and whether
/// streams end or fail, its transcript opens with the system message and
/// then alternates user and assistant messages, user first.
pub proof fn lemma_every_run_is_ordered(settings: SettingsView, events: Seq<Event>)
    ensures
        ordered(run(initial(settings), events).transcript),
{
    lemma_initial_consistent(settings);
    lemma_run_consistent(initial(settings), events);
}

/// A stream that fails leaves the same state as one that ends.
pub proof fn lemma_failure_commits_like_end(s: SessionView)
    ensures
        step(s, Event::StreamFailed) == step(s, Event::StreamEnded),
{
}

/// The transcript only grows, at its end, and by at most one entry for each
/// event: nothing that was recorded is changed or lost.
pub proof fn lemma_step_appends(s: SessionView, e: Event)
    ensures
        s.transcript.len() <= step(s, e).transcript.len() <= s.transcript.len() + 1,
        step(s, e).transcript.take(s.transcript.len() as int) == s.transcript,
        step(s, e).settings == s.settings,
{
    assert(step(s, e).transcript.take(s.transcript.len() as int) =~= s.transcript);
}

/// What was recorded before a run of events is still there after it.
pub proof fn lemma_run_appends(s: SessionView, events: Seq<Event>)
    ensures
        s.transcript.len() <= run(s, events).transcript.len() <= s.transcript.len() + events.len(),
        run(s, events).transcript.take(s.transcript.len() as int) == s.transcript,
        run(s, events).settings == s.settings,
    decreases events.len(),
{
    if events.len() == 0 {
        assert(s.transcript.take(s.transcript.len() as int) =~= s.transcript);
    } else {
        let mid = run(s, events.drop_last());
        lemma_run_appends(s, events.drop_last());
        lemma_step_appends(mid, events.last());
        assert(run(s, events).transcript.take(s.transcript.len() as int) =~= mid.transcript.take(
            s.transcript.len() as int,
        ));
    }
}

/// The command to leave ends the session and adds nothing to the
/// transcript.
pub proof fn lemma_exit_adds_nothing(s: SessionView, line: Seq<char>)
    requires
        s.phase == Phase::AwaitingInput,
        is_exit_line(line),
    ensures
        step(s, Event::Line(line)).phase == Phase::Terminated,
        step(s, Event::Line(line)).transcript == s.transcript,
{
}

/// Any line but the command to leave, the empty line too, is added to the
/// transcript as a user message, and a reply to it is requested.
pub proof fn lemma_line_is_said(s: SessionView, line: Seq<char>)
    requires
        s.phase == Phase::AwaitingInput,
        !is_exit_line(line),
    ensures
        step(s, Event::Line(line)).phase == Phase::Streaming,
        step(s, Event::Line(line)).transcript == s.transcript.push(
            MessageView { role: Role::User, content: trimmed(line) },
        ),
        request_for(step(s, Event::Line(line))).messages.last() == (MessageView {
            role: Role::User,
            content: trimmed(line),
        }),
{
}

/// Once the user has left, no event changes anything.
pub proof fn lemma_terminated_is_final(s: SessionView, events: Seq<Event>)
    requires
        s.phase == Phase::Terminated,
    ensures
        run(s, events) == s,
    decreases events.len(),
{
    if events.len() > 0 {
        lemma_terminated_is_final(s, events.drop_last());
    }
}

/// The events of one stream: its chunks, and then its end or its failure.
pub open spec fn stream_events(chunks: Seq<Seq<Option<Seq<char>>>>, failed: bool) -> Seq<Event> {
    chunks.map_values(|c: Seq<Option<Seq<char>>>| Event::Chunk(c)).push(
        if failed {
            Event::StreamFailed
        } else {
            Event::StreamEnded
        },
    )
}

/// While a reply is streamed the chunks do nothing but add to it.
pub proof fn lemma_chunks_gather(s: SessionView, chunks: Seq<Seq<Option<Seq<char>>>>)
    requires
        s.phase == Phase::Streaming,
    ensures
        run(s, chunks.map_values(|c: Seq<Option<Seq<char>>>| Event::Chunk(c))) == (SessionView {
            reply: s.reply + stream_text(chunks),
            ..s
        }),
    decreases chunks.len(),
{
    let events = chunks.map_values(|c: Seq<Option<Seq<char>>>| Event::Chunk(c));
    if chunks.len() == 0 {
        assert(s.reply + stream_text(chunks) =~= s.reply);
    } else {
        lemma_chunks_gather(s, chunks.drop_last());
        assert(events.drop_last() =~= chunks.drop_last().map_values(
            |c: Seq<Option<Seq<char>>>| Event::Chunk(c),
        ));
        assert(events.last() == Event::Chunk(chunks.last()));
        assert(s.reply + stream_text(chunks.drop_last()) + chunk_text(chunks.last()) =~= s.reply
            + stream_text(chunks));
    }
}

/// A turn commits what has arrived: after the chunks of a stream and its
/// end, or its failure, the transcript has one more entry, the assistant
/// message with all the text of the chunks that came, and the next line of
/// input is awaited.
pub proof fn lemma_stream_commits_reply(
    s: SessionView,
    chunks: Seq<Seq<Option<Seq<char>>>>,
    failed: bool,
)
    requires
        s.phase == Phase::Streaming,
    ensures
        run(s, stream_events(chunks, failed)) == (SessionView {
            phase: Phase::AwaitingInput,
            transcript: s.transcript.push(
                MessageView { role: Role::Assistant, content: s.reply + stream_text(chunks) },
            ),
            reply: Seq::empty(),
            ..s
        }),
{
    let events = stream_events(chunks, failed);
    let gathered = chunks.map_values(|c: Seq<Option<Seq<char>>>| Event::Chunk(c));
    assert(events.drop_last() =~= gathered);
    lemma_chunks_gather(s, chunks);
}

} // verus!
