//! Managing the local ollama service and its models.
pub mod check;
pub mod install;
pub mod models_manager;

pub use check::{bundled_executable, locate_command, service_program, ServiceProgram};
pub use install::{password_accepted, password_line, password_verdict, WrongPass};
pub use models_manager::{
    group_local_models, local_model_info, model_tag, models_to_json, parse_models_json,
    split_model_tag, ModelGroup, OModelInfo,
};
