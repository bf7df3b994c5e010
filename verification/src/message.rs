//! Role-tagged messages, the entries of a conversation transcript.

use vstd::prelude::*;

verus! {

/// Who speaks in a message.
#[derive(Clone, Copy, Debug, PartialEq, Eq, Structural)]
pub enum Role {
    /// The instruction that frames the whole conversation.
    System,
    /// The person at the terminal.
    User,
    /// The remote completion service.
    Assistant,
}

/// The mathematical value of a [`Message`]: its role and its text.
pub struct MessageView {
    pub role: Role,
    pub content: Seq<char>,
}

/// One entry of a transcript: a text body tagged with the role that spoke it.
#[derive(Debug)]
pub enum Message {
    System { content: String },
    User { content: String },
    Assistant { content: String },
}

impl View for Message {
    type V = MessageView;

    open spec fn view(&self) -> MessageView {
        match self {
            Message::System { content } => MessageView { role: Role::System, content: content@ },
            Message::User { content } => MessageView { role: Role::User, content: content@ },
            Message::Assistant { content } => MessageView {
                role: Role::Assistant,
                content: content@,
            },
        }
    }
}

impl Message {
    /// A system message with the given text.
    pub fn system(content: String) -> (m: Message)
        ensures
            m@ == (MessageView { role: Role::System, content: content@ }),
    {
        Message::System { content }
    }

    /// A user message with the given text.
    pub fn user(content: String) -> (m: Message)
        ensures
            m@ == (MessageView { role: Role::User, content: content@ }),
    {
        Message::User { content }
    }

    /// An assistant message with the given text.
    pub fn assistant(content: String) -> (m: Message)
        ensures
            m@ == (MessageView { role: Role::Assistant, content: content@ }),
    {
        Message::Assistant { content }
    }

    /// The role tag of this message.
    pub fn role(&self) -> (r: Role)
        ensures
            r == self@.role,
    {
        match self {
            Message::System { .. } => Role::System,
            Message::User { .. } => Role::User,
            Message::Assistant { .. } => Role::Assistant,
        }
    }

    /// The text body of this message.
    pub fn content(&self) -> (s: &str)
        ensures
            s@ == self@.content,
    {
        match self {
            Message::System { content } => content.as_str(),
            Message::User { content } => content.as_str(),
            Message::Assistant { content } => content.as_str(),
        }
    }
}

impl Clone for Message {
    fn clone(&self) -> (m: Message)
        ensures
            m@ == self@,
    {
        match self {
            Message::System { content } => Message::System { content: content.clone() },
            Message::User { content } => Message::User { content: content.clone() },
            Message::Assistant { content } => Message::Assistant { content: content.clone() },
        }
    }
}

} // verus!
