//! Rewriting a user's request into several search queries.
use vstd::prelude::*;

verus! {

/// The instruction under which the model rewrites a query.
pub const RE_PROMPT: &'static str = "your job is to rewrite the text in 3 different short meaningful forms.";

/// The instruction under which the model extracts queries from a text.
pub const EXTRACT_PREAMBLE: &'static str = "extract queries from the given text";

/// The queries extracted from a text.
#[derive(Debug)]
pub struct Queries {
    pub queries: Vec<String>,
}

} // verus!
