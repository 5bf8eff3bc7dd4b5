//! The instructions given to the model when it answers the user.
use vstd::prelude::*;

verus! {

/// The instruction under which the model answers the user.
pub const ASSISTANT_PREAMBLE: &'static str = "you are a perfect AI assistant in all disciplines.";

} // verus!
