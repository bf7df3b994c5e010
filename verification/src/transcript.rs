//! The transcript: the ordered, append-only record of a conversation.
//!
//! A transcript opens with the one system message and then alternates user
//! and assistant messages, in the order in which they were spoken. Entries
//! are only ever added at the end.

use crate::message::{Message, MessageView, Role};
use vstd::prelude::*;

verus! {

/// The role that the entry at position `i` of a transcript must carry.
pub open spec fn role_at(i: int) -> Role {
    if i == 0 {
        Role::System
    } else if i % 2 == 1 {
        Role::User
    } else {
        Role::Assistant
    }
}

/// The ordering rule of transcripts: there is a first entry, and every entry
/// carries the role of its position.
pub open spec fn ordered(t: Seq<MessageView>) -> bool {
    &&& t.len() >= 1
    &&& forall|i: int| 0 <= i < t.len() ==> (#[trigger] t[i]).role == role_at(i)
}

/// The role of the entry that may be appended to `t` next.
pub open spec fn next_role(t: Seq<MessageView>) -> Role {
    role_at(t.len() as int)
}

/// The views of a run of messages, entry by entry.
pub open spec fn views(ms: Seq<Message>) -> Seq<MessageView> {
    ms.map_values(|m: Message| m@)
}

/// An ordered transcript holds exactly one system message, the first entry.
pub proof fn lemma_ordered_single_system(t: Seq<MessageView>)
    requires
        ordered(t),
    ensures
        t[0].role == Role::System,
        forall|i: int| 0 < i < t.len() ==> (#[trigger] t[i]).role != Role::System,
{
}

/// In an ordered transcript a user message and an assistant message take
/// turns: after the opening entry each entry differs in role from the one
/// before it, user first.
pub proof fn lemma_ordered_alternates(t: Seq<MessageView>, i: int)
    requires
        ordered(t),
        1 <= i < t.len(),
    ensures
        t[i].role == Role::User || t[i].role == Role::Assistant,
        i == 1 ==> t[i].role == Role::User,
        i >= 2 ==> t[i].role != t[i - 1].role,
        t[i].role == Role::Assistant ==> t[i - 1].role == Role::User,
{
}

/// Appending the entry whose turn it is keeps a transcript ordered, and
/// nothing else does.
pub proof fn lemma_ordered_push(t: Seq<MessageView>, m: MessageView)
    requires
        ordered(t),
    ensures
        ordered(t.push(m)) <==> m.role == next_role(t),
{
    let u = t.push(m);
    if m.role == next_role(t) {
        assert forall|i: int| 0 <= i < u.len() implies (#[trigger] u[i]).role == role_at(i) by {
            if i < t.len() {
                assert(u[i] == t[i]);
            }
        }
    } else {
        assert(u[t.len() as int] == m);
    }
}

/// The record of one conversation.
#[derive(Debug)]
pub struct Transcript {
    messages: Vec<Message>,
}

impl View for Transcript {
    type V = Seq<MessageView>;

    closed spec fn view(&self) -> Seq<MessageView> {
        views(self.messages@)
    }
}

impl Transcript {
    /// The invariant of the type: the entries obey the ordering rule.
    pub open spec fn wf(&self) -> bool {
        ordered(self@)
    }

    /// A transcript that holds the system message with the given text and
    /// nothing else.
    pub fn new(system_prompt: String) -> (t: Transcript)
        ensures
            t.wf(),
            t@ == seq![MessageView { role: Role::System, content: system_prompt@ }],
    {
        let mut messages: Vec<Message> = Vec::new();
        messages.push(Message::system(system_prompt));
        let t = Transcript { messages };
        assert(t@ =~= seq![MessageView { role: Role::System, content: system_prompt@ }]);
        t
    }

    /// The number of entries.
    pub fn len(&self) -> (n: usize)
        ensures
            n == self@.len(),
    {
        self.messages.len()
    }

    /// The entry at position `i`.
    pub fn get(&self, i: usize) -> (m: &Message)
        requires
            i < self@.len(),
        ensures
            m@ == self@[i as int],
    {
        &self.messages[i]
    }

    /// The entry that was appended last.
    pub fn last(&self) -> (m: &Message)
        requires
            self.wf(),
        ensures
            m@ == self@.last(),
    {
        &self.messages[self.messages.len() - 1]
    }

    /// The role whose turn it is to speak: the user after the system message
    /// and after every assistant message, the assistant after every user
    /// message.
    pub fn next_role(&self) -> (r: Role)
        requires
            self.wf(),
        ensures
            r == next_role(self@),
            r != Role::System,
    {
        if self.messages.len() % 2 == 1 {
            Role::User
        } else {
            Role::Assistant
        }
    }

    /// Appends a user message with the given text.
    pub fn push_user(&mut self, text: String)
        requires
            old(self).wf(),
            next_role(old(self)@) == Role::User,
        ensures
            final(self).wf(),
            final(self)@ == old(self)@.push(MessageView { role: Role::User, content: text@ }),
    {
        let ghost entry = MessageView { role: Role::User, content: text@ };
        self.messages.push(Message::user(text));
        proof {
            assert(self@ =~= old(self)@.push(entry));
            lemma_ordered_push(old(self)@, entry);
        }
    }

    /// Appends an assistant message with the given text.
    pub fn push_assistant(&mut self, text: String)
        requires
            old(self).wf(),
            next_role(old(self)@) == Role::Assistant,
        ensures
            final(self).wf(),
            final(self)@ == old(self)@.push(
                MessageView { role: Role::Assistant, content: text@ },
            ),
    {
        let ghost entry = MessageView { role: Role::Assistant, content: text@ };
        self.messages.push(Message::assistant(text));
        proof {
            assert(self@ =~= old(self)@.push(entry));
            lemma_ordered_push(old(self)@, entry);
        }
    }

    /// A copy of the entries, first to last, as they are sent to the
    /// completion service.
    pub fn to_vec(&self) -> (ms: Vec<Message>)
        ensures
            views(ms@) == self@,
    {
        let mut ms: Vec<Message> = Vec::new();
        let mut i: usize = 0;
        while i < self.messages.len()
            invariant
                i <= self.messages.len(),
                views(ms@) == views(self.messages@.take(i as int)),
            decreases self.messages.len() - i,
        {
            let entry = self.messages[i].clone();
            let ghost before = ms@;
            ms.push(entry);
            i = i + 1;
            assert(views(ms@) =~= views(before).push(entry@));
            assert(views(ms@) =~= views(self.messages@.take(i as int)));
        }
        assert(self.messages@.take(i as int) =~= self.messages@);
        ms
    }
}

} // verus!
