//! Incremental text generation: a verified generation-loop engine.
//!
//! The crate drives autoregressive decoding one step at a time: it keeps the
//! token history, selects the model's context window for each step, applies a
//! repeat penalty to recently emitted tokens, samples the next token, and
//! streams decoded text back without ever splitting a character.

use vstd::prelude::*;

pub mod backend;
pub mod decoder;
pub mod errors;
pub mod penalty;
pub mod session;
pub mod tok;

verus! {

/// Index of the first history token handed to the model at a decode step.
///
/// On the first step the model sees the entire history; afterwards it sees
/// only the newest token, since the model keeps its own incremental cache
/// keyed by position.
pub open spec fn spec_context_start(step: nat, len: nat) -> nat {
    if step > 0 && len > 0 {
        (len - 1) as nat
    } else {
        0
    }
}

/// Start of the context window for decode step `step` over a history of
/// `len` tokens: everything on step 0, the single newest token afterwards.
pub fn context_start(step: usize, len: usize) -> (r: usize)
    ensures
        r == spec_context_start(step as nat, len as nat),
        r <= len,
{
    if step > 0 && len > 0 {
        len - 1
    } else {
        0
    }
}

} // verus!
