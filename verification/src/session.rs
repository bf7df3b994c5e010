//! A session: the state of the conversation loop, and the steps that the
//! loop takes on it.
//!
//! The caller reads the lines, sends the requests and shows the fragments.
//! The session decides what each of these events does: what enters the
//! transcript, what is asked of the service, and when the program ends.

use crate::model::{
    action_for, after_quit, after_say, after_stream, consistent, initial, progress_for,
    request_for, step, ActionView, Event, Phase, ProgressView, SessionView, SYSTEM_PROMPT,
};
use crate::reply::{absorb, fragments};
use crate::request::CompletionRequest;
use crate::settings::Settings;
use crate::text::{parse_line, Input};
use crate::transcript::Transcript;
use vstd::prelude::*;

verus! {

/// What the caller has to do after a line of input.
#[derive(Debug)]
pub enum Action {
    /// Say farewell and end the program.
    Quit,
    /// Send this request and stream the reply to it.
    Send(CompletionRequest),
}

impl View for Action {
    type V = ActionView;

    open spec fn view(&self) -> ActionView {
        match self {
            Action::Quit => ActionView::Quit,
            Action::Send(request) => ActionView::Send(request@),
        }
    }
}

/// How the stream of a reply came to be over.
#[derive(Clone, Copy, Debug, PartialEq, Eq, Structural)]
pub enum StreamEnd {
    /// The service sent all it had.
    Exhausted,
    /// The transport or the service gave an error.
    Failed,
}

impl View for StreamEnd {
    type V = Event;

    open spec fn view(&self) -> Event {
        match self {
            StreamEnd::Exhausted => Event::StreamEnded,
            StreamEnd::Failed => Event::StreamFailed,
        }
    }
}

/// What the stream of a reply gave when it was asked for its next item.
#[derive(Debug)]
pub enum StreamItem {
    /// A chunk, with the text of each of its deltas that has one.
    Chunk(Vec<Option<String>>),
    /// Nothing more: the stream is over.
    End(StreamEnd),
}

impl View for StreamItem {
    type V = Event;

    open spec fn view(&self) -> Event {
        match self {
            StreamItem::Chunk(deltas) => Event::Chunk(deltas.deep_view()),
            StreamItem::End(end) => end@,
        }
    }
}

/// What the caller has to do after an item of the stream.
#[derive(Debug)]
pub enum Progress {
    /// Show these fragments, in order, and ask the stream for its next item.
    Show(Vec<String>),
    /// Leave the stream: the turn is over, and the next line is awaited.
    Done,
}

impl View for Progress {
    type V = ProgressView;

    open spec fn view(&self) -> ProgressView {
        match self {
            Progress::Show(fragments) => ProgressView::Show(fragments.deep_view()),
            Progress::Done => ProgressView::Done,
        }
    }
}

/// The state of one conversation loop.
pub struct Session {
    settings: Settings,
    transcript: Transcript,
    phase: Phase,
    reply: String,
}

impl View for Session {
    type V = SessionView;

    closed spec fn view(&self) -> SessionView {
        SessionView {
            settings: self.settings@,
            phase: self.phase,
            transcript: self.transcript@,
            reply: self.reply@,
        }
    }
}

impl Session {
    /// The invariant of the type.
    pub open spec fn wf(&self) -> bool {
        consistent(self@)
    }

    /// A session under the given settings, at its start: the transcript
    /// holds the system message, and the first line of input is awaited.
    pub fn new(settings: Settings) -> (s: Session)
        ensures
            s.wf(),
            s@ == initial(settings@),
    {
        let transcript = Transcript::new(SYSTEM_PROMPT.to_owned());
        Session { settings, transcript, phase: Phase::AwaitingInput, reply: String::new() }
    }

    /// Where the session stands in the loop.
    pub fn phase(&self) -> (p: Phase)
        ensures
            p == self@.phase,
    {
        self.phase
    }

    /// The settings that the session was started with.
    pub fn settings(&self) -> (s: &Settings)
        ensures
            s@ == self@.settings,
    {
        &self.settings
    }

    /// The transcript so far.
    pub fn transcript(&self) -> (t: &Transcript)
        ensures
            t@ == self@.transcript,
            self.wf() ==> t.wf(),
    {
        &self.transcript
    }

    /// The part of the reply that has arrived in the current turn.
    pub fn reply(&self) -> (r: &str)
        ensures
            r@ == self@.reply,
    {
        self.reply.as_str()
    }

    /// Takes a line of input as it was read. The command to leave ends the
    /// session. Any other line is trimmed and said.
    pub fn submit_line(&mut self, line: &str) -> (action: Action)
        requires
            old(self).wf(),
            old(self)@.phase == Phase::AwaitingInput,
        ensures
            final(self).wf(),
            final(self)@ == step(old(self)@, Event::Line(line@)),
            action@ == action_for(old(self)@, line@),
    {
        match parse_line(line) {
            Input::Exit => {
                self.quit();
                Action::Quit
            },
            Input::Say(text) => Action::Send(self.say(text)),
        }
    }

    /// Ends the session.
    pub fn quit(&mut self)
        requires
            old(self).wf(),
            old(self)@.phase == Phase::AwaitingInput,
        ensures
            final(self).wf(),
            final(self)@ == after_quit(old(self)@),
    {
        self.phase = Phase::Terminated;
    }

    /// Records `text` as what the user said, whatever it holds, and returns
    /// the request for the reply to it.
    pub fn say(&mut self, text: &str) -> (request: CompletionRequest)
        requires
            old(self).wf(),
            old(self)@.phase == Phase::AwaitingInput,
        ensures
            final(self).wf(),
            final(self)@ == after_say(old(self)@, text@),
            request@ == request_for(final(self)@),
    {
        self.transcript.push_user(text.to_owned());
        self.phase = Phase::Streaming;
        self.reply = String::new();
        CompletionRequest {
            model: self.settings.model().to_owned(),
            messages: self.transcript.to_vec(),
            max_tokens: self.settings.max_tokens(),
            temperature_bits: self.settings.temperature_bits(),
            stream: true,
        }
    }

    /// Takes what the stream of the reply gave next. A chunk is taken in,
    /// and its fragments are to be shown. The end of the stream, and its
    /// first failure, close the turn with what has arrived.
    pub fn stream_item(&mut self, item: StreamItem) -> (progress: Progress)
        requires
            old(self).wf(),
            old(self)@.phase == Phase::Streaming,
        ensures
            final(self).wf(),
            final(self)@ == step(old(self)@, item@),
            progress@ == progress_for(item@),
    {
        match item {
            StreamItem::Chunk(deltas) => Progress::Show(self.absorb_chunk(&deltas)),
            StreamItem::End(end) => {
                self.close_stream(end);
                Progress::Done
            },
        }
    }

    /// Takes in a chunk of the reply: adds its fragments to the reply
    /// gathered so far, and returns them, in order, for the caller to show
    /// before it asks for the next chunk.
    pub fn absorb_chunk(&mut self, deltas: &Vec<Option<String>>) -> (shown: Vec<String>)
        requires
            old(self).wf(),
            old(self)@.phase == Phase::Streaming,
        ensures
            final(self).wf(),
            final(self)@ == step(old(self)@, Event::Chunk(deltas.deep_view())),
            shown.deep_view() == fragments(deltas.deep_view()),
    {
        absorb(&mut self.reply, deltas)
    }

    /// Closes the stream of the reply, however it ended: what was gathered,
    /// be it nothing, becomes the assistant message of this turn, and the
    /// next line of input is awaited.
    pub fn close_stream(&mut self, end: StreamEnd)
        requires
            old(self).wf(),
            old(self)@.phase == Phase::Streaming,
        ensures
            final(self).wf(),
            final(self)@ == step(old(self)@, end@),
            final(self)@ == after_stream(old(self)@),
    {
        let mut text = String::new();
        std::mem::swap(&mut self.reply, &mut text);
        self.transcript.push_assistant(text);
        self.phase = Phase::AwaitingInput;
    }
}

} // verus!
