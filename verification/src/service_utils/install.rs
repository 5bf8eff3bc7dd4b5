//! Installing the ollama tool.
pub mod linux;

pub use linux::{password_accepted, password_line, password_verdict, WrongPass};
