//! Retrieval-augmented generation: documents, the prompts around them and
//! how retrieved documents become context.
pub mod generation;
pub mod indexing;
pub mod query;
pub mod retrieval;

pub use indexing::{new_document_id, Document};
pub use retrieval::{merge_contents, SIMILAR_DOCS_QUERY};
