//! The chat and document databases: their records and the queries on them.
pub mod chat_db_model;
pub mod creation;
pub mod queries;

pub use chat_db_model::{OChat, OChatView, OMessage, OMessageView};
pub use creation::ODatabse;
