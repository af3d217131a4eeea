//! Error type for a generation session.

use vstd::prelude::*;

verus! {

/// Why a generation session failed. Every failure is fatal for the session:
/// a failed forward pass leaves the model's incremental cache inconsistent,
/// so nothing is retried.
#[derive(Debug)]
pub enum GenError {
    /// The tokenizer failed to encode the prompt or decode accumulated tokens.
    Tokenizer,
    /// The tokenizer's vocabulary has no end-of-sequence token.
    MissingEos,
    /// The model forward pass or a tensor operation failed.
    Model(candle_core::Error),
    /// A fixed-script model ran out of scripted logits.
    ModelExhausted,
}

impl GenError {
    /// Short description of the failure, for callers that display errors.
    pub fn describe(&self) -> (r: &'static str)
        ensures
            r@ == self.spec_describe(),
    {
        match self {
            GenError::Tokenizer => "tokenizer failure",
            GenError::MissingEos => "cannot find the </s> token",
            GenError::Model(_) => "model failure",
            GenError::ModelExhausted => "fixed model script exhausted",
        }
    }

    /// The description each failure carries.
    pub open spec fn spec_describe(&self) -> Seq<char> {
        match self {
            GenError::Tokenizer => "tokenizer failure"@,
            GenError::MissingEos => "cannot find the </s> token"@,
            GenError::Model(_) => "model failure"@,
            GenError::ModelExhausted => "fixed model script exhausted"@,
        }
    }
}

} // verus!
