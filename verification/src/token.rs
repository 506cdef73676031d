//! Vocabulary tokens.

use vstd::prelude::*;

verus! {

/// A token of the model's vocabulary, by its id.
#[derive(Debug, Clone, Copy, PartialEq, Eq, Structural)]
pub struct LlamaToken(pub i32);

} // verus!
