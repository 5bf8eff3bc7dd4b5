//! Whether ollama is installed and running, and how to start it.
pub mod running;

pub use running::{bundled_executable, locate_command, service_program, ServiceProgram};
