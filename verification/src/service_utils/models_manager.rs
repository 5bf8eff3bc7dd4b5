//! Local models: their tags and the records kept of them.
pub mod model_crud;
pub mod o_models_info;

pub use model_crud::{
    group_local_models, local_model_info, model_tag, split_model_tag, ModelGroup,
    EMBEDDING_MODEL_NAME,
};
pub use o_models_info::{models_to_json, parse_models_json, OModelInfo};
