//! Chats: one exchange between the user and the model at a time.
pub mod orchestrate;

pub use orchestrate::{MessageAction, MessageEvent, MessageFlow, MessagePhase, OConfig};
