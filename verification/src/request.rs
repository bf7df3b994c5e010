//! The request for a completion, as plain values.

use crate::message::{Message, MessageView};
use crate::transcript::views;
use vstd::prelude::*;

verus! {

/// The mathematical value of a [`CompletionRequest`].
pub struct RequestView {
    pub model: Seq<char>,
    pub messages: Seq<MessageView>,
    pub max_tokens: u16,
    pub temperature_bits: u32,
    pub stream: bool,
}

/// What is sent to the completion service for one turn.
#[derive(Debug)]
pub struct CompletionRequest {
    /// The identifier of the model that is to answer.
    pub model: String,
    /// The whole transcript, first entry to last.
    pub messages: Vec<Message>,
    /// The most tokens that the reply may have.
    pub max_tokens: u16,
    /// The sampling temperature, as the bit pattern of a single-precision
    /// number.
    pub temperature_bits: u32,
    /// Whether the reply is to arrive in chunks.
    pub stream: bool,
}

impl View for CompletionRequest {
    type V = RequestView;

    open spec fn view(&self) -> RequestView {
        RequestView {
            model: self.model@,
            messages: views(self.messages@),
            max_tokens: self.max_tokens,
            temperature_bits: self.temperature_bits,
            stream: self.stream,
        }
    }
}

} // verus!
