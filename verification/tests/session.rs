use chat_session::message::{Message, Role};
use chat_session::model::{Phase, SYSTEM_PROMPT};
use chat_session::request::CompletionRequest;
use chat_session::session::{Action, Progress, Session, StreamEnd, StreamItem};
use chat_session::settings::Settings;

fn settings() -> Settings {
    Settings::new(
        "key-123".to_string(),
        "https://example.openai.azure.com".to_string(),
        "gpt-4".to_string(),
        800,
        0.7f32.to_bits(),
    )
}

fn chunk(items: &[&str]) -> Vec<Option<String>> {
    items.iter().map(|s| Some(s.to_string())).collect()
}

fn entries(session: &Session) -> Vec<(Role, String)> {
    let t = session.transcript();
    (0..t.len()).map(|i| (t.get(i).role(), t.get(i).content().to_string())).collect()
}

fn entry(role: Role, text: &str) -> (Role, String) {
    (role, text.to_string())
}

fn listed(messages: &[Message]) -> Vec<(Role, String)> {
    messages.iter().map(|m| (m.role(), m.content().to_string())).collect()
}

fn sent(action: Action) -> CompletionRequest {
    match action {
        Action::Send(request) => request,
        Action::Quit => panic!("the session ended where a request was expected"),
    }
}

fn assert_ordered(session: &Session) {
    let t = session.transcript();
    assert!(t.len() >= 1);
    for i in 0..t.len() {
        let expected = if i == 0 {
            Role::System
        } else if i % 2 == 1 {
            Role::User
        } else {
            Role::Assistant
        };
        assert_eq!(t.get(i).role(), expected);
    }
}

#[test]
fn session_starts_with_the_system_message() {
    let session = Session::new(settings());
    assert_eq!(session.phase(), Phase::AwaitingInput);
    assert_eq!(entries(&session), vec![entry(Role::System, "You are a helpful assistant.")]);
    assert_eq!(SYSTEM_PROMPT, "You are a helpful assistant.");
    assert_eq!(session.reply(), "");
}

#[test]
fn session_keeps_its_settings() {
    let session = Session::new(settings());
    assert_eq!(session.settings().api_key(), "key-123");
    assert_eq!(session.settings().endpoint(), "https://example.openai.azure.com");
    assert_eq!(session.settings().model(), "gpt-4");
    assert_eq!(session.settings().max_tokens(), 800);
    assert_eq!(session.settings().temperature_bits(), 0.7f32.to_bits());
}

#[test]
fn exit_in_lower_case_terminates() {
    let mut session = Session::new(settings());
    assert!(matches!(session.submit_line("exit"), Action::Quit));
    assert_eq!(session.phase(), Phase::Terminated);
    assert_eq!(session.transcript().len(), 1);
}

#[test]
fn exit_capitalized_terminates() {
    let mut session = Session::new(settings());
    assert!(matches!(session.submit_line("Exit"), Action::Quit));
    assert_eq!(session.phase(), Phase::Terminated);
    assert_eq!(session.transcript().len(), 1);
}

#[test]
fn exit_in_upper_case_terminates() {
    let mut session = Session::new(settings());
    assert!(matches!(session.submit_line("EXIT"), Action::Quit));
    assert_eq!(session.phase(), Phase::Terminated);
    assert_eq!(session.transcript().len(), 1);
}

#[test]
fn exit_with_white_space_around_terminates() {
    let mut session = Session::new(settings());
    assert!(matches!(session.submit_line("  exit  "), Action::Quit));
    assert_eq!(session.phase(), Phase::Terminated);
    assert_eq!(session.transcript().len(), 1);
}

#[test]
fn exit_as_read_from_the_terminal_terminates() {
    let mut session = Session::new(settings());
    assert!(matches!(session.submit_line("exit\n"), Action::Quit));
    assert_eq!(session.phase(), Phase::Terminated);
}

#[test]
fn exit_after_some_turns_leaves_the_transcript_as_it_was() {
    let mut session = Session::new(settings());
    sent(session.submit_line("Hi\n"));
    session.absorb_chunk(&chunk(&["Hello!"]));
    session.close_stream(StreamEnd::Exhausted);
    let before = entries(&session);
    assert!(matches!(session.submit_line(" ExIt \n"), Action::Quit));
    assert_eq!(session.phase(), Phase::Terminated);
    assert_eq!(entries(&session), before);
    assert_eq!(before.len(), 3);
}

#[test]
fn quit_terminates_without_a_user_message() {
    let mut session = Session::new(settings());
    session.quit();
    assert_eq!(session.phase(), Phase::Terminated);
    assert_eq!(session.transcript().len(), 1);
}

#[test]
fn line_is_trimmed_and_recorded_as_user_message() {
    let mut session = Session::new(settings());
    let request = sent(session.submit_line("  What is Rust?  \n"));
    assert_eq!(session.phase(), Phase::Streaming);
    assert_eq!(
        entries(&session),
        vec![
            entry(Role::System, "You are a helpful assistant."),
            entry(Role::User, "What is Rust?"),
        ]
    );
    assert_eq!(listed(&request.messages), entries(&session));
}

#[test]
fn request_carries_the_settings_and_asks_for_chunks() {
    let mut session = Session::new(settings());
    let request = sent(session.submit_line("Hi"));
    assert_eq!(request.model, "gpt-4");
    assert_eq!(request.max_tokens, 800);
    assert_eq!(request.temperature_bits, 0.7f32.to_bits());
    assert_eq!(f32::from_bits(request.temperature_bits), 0.7f32);
    assert!(request.stream);
}

#[test]
fn request_carries_the_whole_transcript_on_every_turn() {
    let mut session = Session::new(settings());
    sent(session.submit_line("first"));
    session.absorb_chunk(&chunk(&["one"]));
    session.close_stream(StreamEnd::Exhausted);
    let request = sent(session.submit_line("second"));
    assert_eq!(
        listed(&request.messages),
        vec![
            entry(Role::System, "You are a helpful assistant."),
            entry(Role::User, "first"),
            entry(Role::Assistant, "one"),
            entry(Role::User, "second"),
        ]
    );
}

#[test]
fn say_records_any_text_as_it_is() {
    let mut session = Session::new(settings());
    let request = session.say("  exit  ");
    assert_eq!(session.phase(), Phase::Streaming);
    assert_eq!(session.transcript().last().role(), Role::User);
    assert_eq!(session.transcript().last().content(), "  exit  ");
    assert_eq!(request.messages.len(), 2);
    assert_eq!(request.messages[1].content(), "  exit  ");
}

#[test]
fn empty_line_is_recorded_and_sent() {
    let mut session = Session::new(settings());
    let request = sent(session.submit_line(""));
    assert_eq!(session.phase(), Phase::Streaming);
    assert_eq!(
        entries(&session),
        vec![entry(Role::System, "You are a helpful assistant."), entry(Role::User, "")]
    );
    assert_eq!(listed(&request.messages), entries(&session));
    assert!(request.stream);
}

#[test]
fn bare_enter_is_recorded_and_sent() {
    let mut session = Session::new(settings());
    let request = sent(session.submit_line("\n"));
    assert_eq!(session.phase(), Phase::Streaming);
    assert_eq!(session.transcript().len(), 2);
    assert_eq!(session.transcript().last().role(), Role::User);
    assert_eq!(session.transcript().last().content(), "");
    assert_eq!(request.messages.len(), 2);
    session.absorb_chunk(&chunk(&["You sent nothing."]));
    session.close_stream(StreamEnd::Exhausted);
    assert_eq!(session.phase(), Phase::AwaitingInput);
    assert_eq!(session.transcript().len(), 3);
}

#[test]
fn streamed_deltas_accumulate_in_order() {
    let mut session = Session::new(settings());
    sent(session.submit_line("Greet the world"));
    assert_eq!(session.absorb_chunk(&chunk(&["Hel"])), vec!["Hel".to_string()]);
    assert_eq!(session.reply(), "Hel");
    assert_eq!(session.absorb_chunk(&chunk(&["lo, "])), vec!["lo, ".to_string()]);
    assert_eq!(session.reply(), "Hello, ");
    assert_eq!(session.absorb_chunk(&chunk(&["world!"])), vec!["world!".to_string()]);
    assert_eq!(session.reply(), "Hello, world!");
    assert_eq!(session.phase(), Phase::Streaming);
    assert_eq!(session.transcript().len(), 2);
    session.close_stream(StreamEnd::Exhausted);
    assert_eq!(session.phase(), Phase::AwaitingInput);
    assert_eq!(
        entries(&session),
        vec![
            entry(Role::System, "You are a helpful assistant."),
            entry(Role::User, "Greet the world"),
            entry(Role::Assistant, "Hello, world!"),
        ]
    );
    assert_eq!(session.reply(), "");
}

#[test]
fn error_mid_stream_keeps_the_partial_reply() {
    let mut session = Session::new(settings());
    sent(session.submit_line("Tell me something"));
    assert_eq!(session.absorb_chunk(&chunk(&["Par"])), vec!["Par".to_string()]);
    assert_eq!(session.absorb_chunk(&chunk(&["tial"])), vec!["tial".to_string()]);
    session.close_stream(StreamEnd::Failed);
    assert_eq!(session.phase(), Phase::AwaitingInput);
    assert_eq!(
        entries(&session),
        vec![
            entry(Role::System, "You are a helpful assistant."),
            entry(Role::User, "Tell me something"),
            entry(Role::Assistant, "Partial"),
        ]
    );
}

#[test]
fn error_before_any_chunk_commits_an_empty_reply() {
    let mut session = Session::new(settings());
    sent(session.submit_line("Anyone there?"));
    session.close_stream(StreamEnd::Failed);
    assert_eq!(session.phase(), Phase::AwaitingInput);
    assert_eq!(session.transcript().len(), 3);
    assert_eq!(session.transcript().last().role(), Role::Assistant);
    assert_eq!(session.transcript().last().content(), "");
}

#[test]
fn stream_without_text_commits_an_empty_reply() {
    let mut session = Session::new(settings());
    sent(session.submit_line("Say nothing"));
    assert!(session.absorb_chunk(&vec![None, Some(String::new())]).is_empty());
    assert!(session.absorb_chunk(&Vec::new()).is_empty());
    session.close_stream(StreamEnd::Exhausted);
    assert_eq!(session.transcript().len(), 3);
    assert_eq!(session.transcript().last().role(), Role::Assistant);
    assert_eq!(session.transcript().last().content(), "");
}

#[test]
fn next_turn_after_a_failed_stream_sends_the_truncated_reply() {
    let mut session = Session::new(settings());
    sent(session.submit_line("one"));
    session.absorb_chunk(&chunk(&["cut o"]));
    session.close_stream(StreamEnd::Failed);
    let request = sent(session.submit_line("two"));
    assert_eq!(
        listed(&request.messages),
        vec![
            entry(Role::System, "You are a helpful assistant."),
            entry(Role::User, "one"),
            entry(Role::Assistant, "cut o"),
            entry(Role::User, "two"),
        ]
    );
}

#[test]
fn chunk_with_several_deltas_shows_each_that_has_text() {
    let mut session = Session::new(settings());
    sent(session.submit_line("Hi"));
    let deltas = vec![
        None,
        Some("a".to_string()),
        Some(String::new()),
        Some("b".to_string()),
        None,
    ];
    assert_eq!(session.absorb_chunk(&deltas), vec!["a".to_string(), "b".to_string()]);
    assert_eq!(session.reply(), "ab");
}

#[test]
fn reply_starts_empty_on_every_turn() {
    let mut session = Session::new(settings());
    sent(session.submit_line("one"));
    session.absorb_chunk(&chunk(&["first reply"]));
    session.close_stream(StreamEnd::Exhausted);
    sent(session.submit_line("two"));
    assert_eq!(session.reply(), "");
    session.absorb_chunk(&chunk(&["second"]));
    session.close_stream(StreamEnd::Exhausted);
    assert_eq!(session.transcript().last().content(), "second");
}

#[test]
fn transcript_alternates_whatever_the_streams_do() {
    let mut session = Session::new(settings());
    assert_ordered(&session);
    let ends = [
        StreamEnd::Exhausted,
        StreamEnd::Failed,
        StreamEnd::Failed,
        StreamEnd::Exhausted,
        StreamEnd::Failed,
    ];
    for (turn, end) in ends.iter().enumerate() {
        let line = if turn % 2 == 0 { format!("question {}\n", turn) } else { String::new() };
        sent(session.submit_line(&line));
        assert_ordered(&session);
        assert_eq!(session.transcript().len(), 2 * turn + 2);
        assert_eq!(session.transcript().last().role(), Role::User);
        for piece in 0..turn {
            session.absorb_chunk(&chunk(&[&format!("piece {} ", piece)]));
            assert_ordered(&session);
            assert_eq!(session.transcript().len(), 2 * turn + 2);
        }
        session.close_stream(*end);
        assert_ordered(&session);
        assert_eq!(session.transcript().len(), 2 * turn + 3);
        assert_eq!(session.transcript().last().role(), Role::Assistant);
        assert_eq!(session.phase(), Phase::AwaitingInput);
    }
    assert!(matches!(session.submit_line("exit"), Action::Quit));
    assert_ordered(&session);
    assert_eq!(session.transcript().len(), 11);
    assert_eq!(session.transcript().get(0).role(), Role::System);
    assert_eq!(session.transcript().get(0).content(), "You are a helpful assistant.");
}

#[test]
fn earlier_entries_never_change() {
    let mut session = Session::new(settings());
    sent(session.submit_line("one"));
    session.absorb_chunk(&chunk(&["first"]));
    session.close_stream(StreamEnd::Exhausted);
    let before = entries(&session);
    sent(session.submit_line("two"));
    session.absorb_chunk(&chunk(&["second"]));
    session.close_stream(StreamEnd::Failed);
    let after = entries(&session);
    assert_eq!(after.len(), before.len() + 2);
    assert_eq!(after[..before.len()], before[..]);
}

fn shown(progress: Progress) -> Vec<String> {
    match progress {
        Progress::Show(fragments) => fragments,
        Progress::Done => panic!("the turn ended where fragments were expected"),
    }
}

#[test]
fn stream_items_show_each_delta_before_the_next_is_taken() {
    let mut session = Session::new(settings());
    sent(session.submit_line("Greet the world"));
    let mut output: Vec<String> = Vec::new();
    for delta in ["Hel", "lo, ", "world!"] {
        let fragments = shown(session.stream_item(StreamItem::Chunk(chunk(&[delta]))));
        assert_eq!(fragments, vec![delta.to_string()]);
        output.extend(fragments);
        assert_eq!(session.reply(), output.concat());
        assert_eq!(session.phase(), Phase::Streaming);
    }
    assert!(matches!(session.stream_item(StreamItem::End(StreamEnd::Exhausted)), Progress::Done));
    assert_eq!(output, vec!["Hel".to_string(), "lo, ".to_string(), "world!".to_string()]);
    assert_eq!(session.phase(), Phase::AwaitingInput);
    assert_eq!(session.transcript().len(), 3);
    assert_eq!(session.transcript().last().role(), Role::Assistant);
    assert_eq!(session.transcript().last().content(), "Hello, world!");
}

#[test]
fn stream_failure_ends_the_turn_with_what_arrived() {
    let mut session = Session::new(settings());
    sent(session.submit_line("Tell me something"));
    assert_eq!(
        shown(session.stream_item(StreamItem::Chunk(chunk(&["Par"])))),
        vec!["Par".to_string()]
    );
    assert_eq!(
        shown(session.stream_item(StreamItem::Chunk(chunk(&["tial"])))),
        vec!["tial".to_string()]
    );
    assert!(matches!(session.stream_item(StreamItem::End(StreamEnd::Failed)), Progress::Done));
    assert_eq!(session.phase(), Phase::AwaitingInput);
    assert_eq!(session.transcript().len(), 3);
    assert_eq!(session.transcript().last().role(), Role::Assistant);
    assert_eq!(session.transcript().last().content(), "Partial");
    assert_eq!(session.reply(), "");
}

#[test]
fn stream_item_without_text_shows_nothing_and_goes_on() {
    let mut session = Session::new(settings());
    sent(session.submit_line("Hi"));
    assert!(shown(session.stream_item(StreamItem::Chunk(Vec::new()))).is_empty());
    assert!(shown(session.stream_item(StreamItem::Chunk(vec![None, Some(String::new())])))
        .is_empty());
    assert_eq!(session.phase(), Phase::Streaming);
    assert_eq!(session.transcript().len(), 2);
}
