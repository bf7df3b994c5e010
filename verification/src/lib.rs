//! The logic of an interactive chat session with a hosted completion service:
//! the transcript of role-tagged messages, the accumulation of a streamed
//! reply, and the state machine that drives one turn after another.

pub mod message;
pub mod model;
pub mod reply;
pub mod request;
pub mod session;
pub mod settings;
pub mod text;
pub mod transcript;
