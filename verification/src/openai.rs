//! OpenAI-specific option types. The embedding code paths themselves compute
//! over floating-point vectors and live outside the verified library.

use vstd::prelude::*;

verus! {

/// Settings for OpenAI that are specific to embedding models.
#[derive(Debug, Clone, PartialEq, Eq)]
pub struct OpenAIEmbeddingModelOptions {}

} // verus!
