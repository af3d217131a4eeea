//! Trusted boundary to the candle crates: tensors, the Mistral models, and
//! the seeded sampler.
//!
//! Logits live in tensors whose contents only candle's numeric code can read,
//! so these contracts say nothing about the numbers; the verified controller
//! states what it does with every value that comes back.

use vstd::prelude::*;

verus! {

#[verifier::external_type_specification]
#[verifier::external_body]
pub struct ExTensor(candle_core::Tensor);

#[verifier::external_type_specification]
#[verifier::external_body]
pub struct ExDevice(candle_core::Device);

#[verifier::external_type_specification]
#[verifier::external_body]
pub struct ExError(candle_core::Error);

#[verifier::external_type_specification]
#[verifier::external_body]
pub struct ExLogitsProcessor(candle_transformers::generation::LogitsProcessor);

#[verifier::external_type_specification]
#[verifier::external_body]
pub struct ExMistral(candle_transformers::models::mistral::Model);

#[verifier::external_type_specification]
#[verifier::external_body]
pub struct ExQuantizedMistral(candle_transformers::models::quantized_mistral::Model);

/// Relies on `candle_core::Tensor::new` and `Tensor::unsqueeze`: a rank-2
/// `(1, n)` tensor holding the given token ids, on the given device.
#[verifier::external_body]
pub(crate) fn token_tensor(ids: &Vec<u32>, device: &candle_core::Device) -> (r: Result<
    candle_core::Tensor,
    candle_core::Error,
>) {
    candle_core::Tensor::new(ids.as_slice(), device)?.unsqueeze(0)
}

/// Relies on `candle_transformers::models::mistral::Model::forward`: one
/// incremental forward pass over the given context window, with the model's
/// own key/value cache advanced past `offset`.
#[verifier::external_body]
pub(crate) fn forward_mistral(
    model: &mut candle_transformers::models::mistral::Model,
    input: &candle_core::Tensor,
    offset: usize,
) -> (r: Result<candle_core::Tensor, candle_core::Error>) {
    model.forward(input, offset)
}

/// Relies on `candle_transformers::models::quantized_mistral::Model::forward`:
/// the quantized counterpart of the incremental forward pass.
#[verifier::external_body]
pub(crate) fn forward_quantized(
    model: &mut candle_transformers::models::quantized_mistral::Model,
    input: &candle_core::Tensor,
    offset: usize,
) -> (r: Result<candle_core::Tensor, candle_core::Error>) {
    model.forward(input, offset)
}

/// Relies on `candle_core::Tensor::squeeze` and `Tensor::to_dtype`: strips
/// the two leading unit dimensions off a forward result and converts it to
/// single-precision scores, one per vocabulary token.
#[verifier::external_body]
pub(crate) fn shape_logits(logits: candle_core::Tensor) -> (r: Result<
    candle_core::Tensor,
    candle_core::Error,
>) {
    logits.squeeze(0)?.squeeze(0)?.to_dtype(candle_core::DType::F32)
}

/// Relies on `candle_core::Tensor::clone`: another handle to the same
/// tensor value.
#[verifier::external_body]
pub(crate) fn clone_tensor(t: &candle_core::Tensor) -> (r: candle_core::Tensor)
    ensures
        r == *t,
{
    t.clone()
}

/// Relies on `candle_transformers::generation::LogitsProcessor::sample`: the
/// next token id drawn from the logits under the processor's sampling policy
/// and seeded generator state.
#[verifier::external_body]
pub(crate) fn sample_token(
    processor: &mut candle_transformers::generation::LogitsProcessor,
    logits: &candle_core::Tensor,
) -> (r: Result<u32, candle_core::Error>) {
    processor.sample(logits)
}

} // verus!
