//! Chat, retrieval and model-management logic of a local LLM assistant.
pub mod chat;
pub mod clock;
pub mod database;
pub mod model_info;
pub mod rag;
pub mod service_utils;
pub mod text;

pub use model_info::{ModelCategory, ModelInfo, ModelVariant};
