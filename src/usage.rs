use vstd::prelude::*;

verus! {

/// The tokens that a request used.
#[derive(Debug, Clone, PartialEq, Eq, Structural)]
pub struct Usage {
    pub prompt_tokens: i32,
    pub completion_tokens: i32,
    pub total_tokens: i32,
}

} // verus!
