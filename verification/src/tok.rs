//! Trusted boundary to the `tokenizers` crate.
//!
//! The tokenizer is opaque: what a token id decodes to depends on the
//! vocabulary a particular tokenizer was loaded with, so nothing is assumed
//! about the text these calls return; the verified decoding logic takes the
//! returned characters as an argument and is proved for every possible value.

use vstd::prelude::*;

verus! {

#[verifier::external_type_specification]
#[verifier::external_body]
pub struct ExTokenizer(tokenizers::Tokenizer);

/// Relies on `tokenizers::Tokenizer::encode` (with special tokens added):
/// turns the prompt into token ids; `None` when the tokenizer reports an
/// encoding error.
#[verifier::external_body]
pub(crate) fn encode_text(tokenizer: &tokenizers::Tokenizer, text: &str) -> (r: Option<
    Vec<u32>,
>) {
    match tokenizer.encode(text, true) {
        Ok(encoding) => Some(encoding.get_ids().to_vec()),
        Err(_) => None,
    }
}

/// Relies on `tokenizers::Tokenizer::decode` (skipping special tokens):
/// renders accumulated token ids as text; `None` when the tokenizer reports
/// a decoding error. The text comes back as its characters.
#[verifier::external_body]
pub(crate) fn decode_tokens(tokenizer: &tokenizers::Tokenizer, ids: &Vec<u32>) -> (r: Option<
    Vec<char>,
>) {
    match tokenizer.decode(ids, true) {
        Ok(text) => Some(text.chars().collect()),
        Err(_) => None,
    }
}

/// Relies on `tokenizers::Tokenizer::token_to_id`: the id of a vocabulary
/// token, `None` when the vocabulary lacks it.
#[verifier::external_body]
pub(crate) fn token_id(tokenizer: &tokenizers::Tokenizer, token: &str) -> (r: Option<u32>) {
    tokenizer.token_to_id(token)
}

/// Relies on `str::chars`: the characters of a string, in order.
#[verifier::external_body]
pub(crate) fn chars_of_string(s: &String) -> (r: Vec<char>)
    ensures
        r@ == s@,
{
    s.chars().collect()
}

/// Relies on `std::iter::Iterator::collect`: rebuilds a `String` from its
/// characters, in order.
#[verifier::external_body]
pub(crate) fn string_of_chars(chars: &Vec<char>) -> (r: String)
    ensures
        r@ == chars@,
{
    chars.iter().collect()
}

} // verus!
