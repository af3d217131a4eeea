//! Streaming token-to-text decoder.
//!
//! Token ids are sub-word units: several may have to accumulate before their
//! joint decoding ends on a complete character. The decoder keeps every token
//! seen this session, re-decodes the whole accumulated sequence on each new
//! token, and emits only the suffix past what was already emitted — and only
//! when that suffix ends on a safe boundary. The emission logic is verified
//! for every possible decoded text; only the call into the tokenizer is
//! trusted.

use vstd::prelude::*;
use crate::errors::GenError;
use crate::tok;

verus! {

/// Substituted by the tokenizer for bytes that do not yet form a complete
/// UTF-8 character; text ending in it is still pending more tokens.
pub const REPLACEMENT: char = '\u{FFFD}';

/// A decoded text may be surfaced past `emitted` when it strictly extends
/// what was already emitted and does not end mid-character.
pub open spec fn spec_should_emit(emitted: nat, text: Seq<char>) -> bool {
    emitted < text.len() && text.last() != REPLACEMENT
}

/// The fragment surfaced from `text` when `emitted` characters are already
/// out: the new suffix, or nothing while the tail is still unsafe.
pub open spec fn spec_fragment(emitted: nat, text: Seq<char>) -> Seq<char> {
    if spec_should_emit(emitted, text) {
        text.skip(emitted as int)
    } else {
        Seq::empty()
    }
}

/// The emitted-length marker after one decoding step.
pub open spec fn spec_emitted_after(emitted: nat, text: Seq<char>) -> nat {
    if spec_should_emit(emitted, text) {
        text.len()
    } else {
        emitted
    }
}

/// The final flush surfaces whatever is pending, boundary or not.
pub open spec fn spec_flush_fragment(emitted: nat, text: Seq<char>) -> Seq<char> {
    if emitted < text.len() {
        text.skip(emitted as int)
    } else {
        Seq::empty()
    }
}

/// Copy of `text[from..]`.
fn suffix_chars(text: &Vec<char>, from: usize) -> (r: Vec<char>)
    requires
        from <= text@.len(),
    ensures
        r@ == text@.skip(from as int),
{
    let mut out: Vec<char> = Vec::new();
    let mut i: usize = from;
    while i < text.len()
        invariant
            from <= i <= text@.len(),
            out@ == text@.subrange(from as int, i as int),
        decreases text@.len() - i,
    {
        out.push(text[i]);
        assert(out@ == text@.subrange(from as int, i + 1 as int));
        i = i + 1;
    }
    assert(out@ == text@.skip(from as int));
    out
}

/// Streaming decoder state for one generation session: the tokens consumed
/// so far, how many characters of their decoding were already emitted, and
/// (as a ghost) everything emitted since the last `clear`.
pub struct StreamDecoder {
    /// The tokenizer whose vocabulary gives the tokens their text.
    pub tokenizer: tokenizers::Tokenizer,
    /// Every token consumed since the last `clear`, in order.
    pub tokens: Vec<u32>,
    /// How many characters of the accumulated decoding were already emitted.
    pub emitted: usize,
    /// Concatenation of every fragment emitted since the last `clear`.
    pub out: Ghost<Seq<char>>,
}

impl StreamDecoder {
    /// The emitted-length marker counts exactly the characters emitted.
    pub open spec fn wf(self) -> bool {
        self.out@.len() == self.emitted
    }

    /// A fresh decoder around `tokenizer`: nothing consumed, nothing emitted.
    pub fn new(tokenizer: tokenizers::Tokenizer) -> (r: StreamDecoder)
        ensures
            r.wf(),
            r.tokens@ == Seq::<u32>::empty(),
            r.emitted == 0,
            r.out@ == Seq::<char>::empty(),
    {
        StreamDecoder { tokenizer, tokens: Vec::new(), emitted: 0, out: Ghost(Seq::empty()) }
    }

    /// Reset for a new session: afterwards no token and no emitted character
    /// of any earlier session remains, so earlier sessions contribute
    /// nothing to what is emitted next.
    pub fn clear(&mut self)
        ensures
            final(self).wf(),
            final(self).tokenizer == old(self).tokenizer,
            final(self).tokens@ == Seq::<u32>::empty(),
            final(self).emitted == 0,
            final(self).out@ == Seq::<char>::empty(),
    {
        self.tokens = Vec::new();
        self.emitted = 0;
        self.out = Ghost(Seq::empty());
    }

    /// One emission step over an already-decoded text: surfaces the new
    /// suffix exactly when the text extends what was emitted and ends on a
    /// safe boundary, and moves the emitted marker past it.
    pub fn advance(&mut self, text: &Vec<char>) -> (r: Option<Vec<char>>)
        requires
            old(self).wf(),
        ensures
            final(self).wf(),
            final(self).tokenizer == old(self).tokenizer,
            final(self).tokens == old(self).tokens,
            final(self).emitted == spec_emitted_after(old(self).emitted as nat, text@),
            final(self).out@ == old(self).out@ + spec_fragment(old(self).emitted as nat, text@),
            match r {
                Some(f) => spec_should_emit(old(self).emitted as nat, text@) && f@ == spec_fragment(
                    old(self).emitted as nat,
                    text@,
                ),
                None => !spec_should_emit(old(self).emitted as nat, text@),
            },
    {
        if self.emitted < text.len() && text[text.len() - 1] != REPLACEMENT {
            let frag = suffix_chars(text, self.emitted);
            self.emitted = text.len();
            proof {
                assert(text@.last() == text@[text@.len() - 1]);
            }
            self.out = Ghost(self.out@ + frag@);
            Some(frag)
        } else {
            proof {
                assert(self.out@ + Seq::<char>::empty() =~= self.out@);
            }
            None
        }
    }

    /// Final flush over an already-decoded text: surfaces everything past
    /// the emitted marker, boundary or not.
    pub fn flush(&mut self, text: &Vec<char>) -> (r: Option<Vec<char>>)
        requires
            old(self).wf(),
        ensures
            final(self).wf(),
            final(self).tokenizer == old(self).tokenizer,
            final(self).tokens == old(self).tokens,
            final(self).out@ == old(self).out@ + spec_flush_fragment(
                old(self).emitted as nat,
                text@,
            ),
            match r {
                Some(f) => old(self).emitted < text@.len() && f@ == spec_flush_fragment(
                    old(self).emitted as nat,
                    text@,
                ),
                None => old(self).emitted >= text@.len(),
            },
    {
        if self.emitted < text.len() {
            let frag = suffix_chars(text, self.emitted);
            self.emitted = text.len();
            self.out = Ghost(self.out@ + frag@);
            Some(frag)
        } else {
            proof {
                assert(self.out@ + Seq::<char>::empty() =~= self.out@);
            }
            None
        }
    }

    /// Consume one token: decode the whole accumulated sequence and emit the
    /// new suffix if it is safe to show. A tokenizer failure is fatal; the
    /// token still counts as consumed.
    pub fn next_token(&mut self, token: u32) -> (r: Result<Option<Vec<char>>, GenError>)
        requires
            old(self).wf(),
        ensures
            final(self).wf(),
            final(self).tokenizer == old(self).tokenizer,
            final(self).tokens@ == old(self).tokens@.push(token),
            final(self).emitted >= old(self).emitted,
            match r {
                Ok(Some(f)) => final(self).out@ == old(self).out@ + f@ && f@.len() > 0,
                Ok(None) => final(self).out@ == old(self).out@,
                Err(e) => final(self).out@ == old(self).out@ && e is Tokenizer,
            },
    {
        self.tokens.push(token);
        let text = match tok::decode_tokens(&self.tokenizer, &self.tokens) {
            Some(t) => t,
            None => {
                return Err(GenError::Tokenizer);
            },
        };
        match self.advance(&text) {
            Some(f) => Ok(Some(f)),
            None => Ok(None),
        }
    }

    /// End of session: decode the whole accumulated sequence once more and
    /// flush whatever was still buffered, which may be nothing.
    pub fn decode_rest(&mut self) -> (r: Result<Option<Vec<char>>, GenError>)
        requires
            old(self).wf(),
        ensures
            final(self).wf(),
            final(self).tokenizer == old(self).tokenizer,
            final(self).tokens == old(self).tokens,
            final(self).emitted >= old(self).emitted,
            match r {
                Ok(Some(f)) => final(self).out@ == old(self).out@ + f@ && f@.len() > 0,
                Ok(None) => final(self).out@ == old(self).out@,
                Err(e) => final(self).out@ == old(self).out@ && e is Tokenizer,
            },
    {
        let text = match tok::decode_tokens(&self.tokenizer, &self.tokens) {
            Some(t) => t,
            None => {
                return Err(GenError::Tokenizer);
            },
        };
        match self.flush(&text) {
            Some(f) => Ok(Some(f)),
            None => Ok(None),
        }
    }
}

/// The emitted marker after streaming through every text in `texts`,
/// starting fresh: the decodings that successive `next_token` calls see.
pub open spec fn spec_stream_emitted(texts: Seq<Seq<char>>) -> nat
    decreases texts.len(),
{
    if texts.len() == 0 {
        0
    } else {
        spec_emitted_after(spec_stream_emitted(texts.drop_last()), texts.last())
    }
}

/// Everything emitted after streaming through every text in `texts`.
pub open spec fn spec_stream_out(texts: Seq<Seq<char>>) -> Seq<char>
    decreases texts.len(),
{
    if texts.len() == 0 {
        Seq::empty()
    } else {
        spec_stream_out(texts.drop_last()) + spec_fragment(
            spec_stream_emitted(texts.drop_last()),
            texts.last(),
        )
    }
}

/// Each decoded text extends the previous one — what incremental decoding
/// of a growing token sequence yields.
pub open spec fn prefix_chain(texts: Seq<Seq<char>>) -> bool {
    forall|i: int| 0 <= i < texts.len() - 1 ==> (#[trigger] texts[i]).is_prefix_of(texts[i + 1])
}

proof fn lemma_stream_invariant(texts: Seq<Seq<char>>)
    requires
        texts.len() > 0,
        prefix_chain(texts),
    ensures
        spec_stream_emitted(texts) <= texts.last().len(),
        spec_stream_out(texts) == texts.last().take(spec_stream_emitted(texts) as int),
    decreases texts.len(),
{
    let t = texts.last();
    let prev = texts.drop_last();
    let e = spec_stream_emitted(prev);
    let out = spec_stream_out(prev);
    if texts.len() == 1 {
        assert(out == t.take(e as int));
    } else {
        assert(prefix_chain(prev)) by {
            assert forall|i: int| 0 <= i < prev.len() - 1 implies (
            #[trigger] prev[i]).is_prefix_of(prev[i + 1]) by {
                assert(texts[i].is_prefix_of(texts[i + 1]));
            }
        }
        lemma_stream_invariant(prev);
        let tp = prev.last();
        assert(tp == texts[texts.len() - 2]);
        assert(tp.is_prefix_of(t));
        assert(e <= tp.len() <= t.len());
        assert(out == tp.take(e as int));
        assert(tp.take(e as int) =~= t.take(e as int));
    }
    // out == t.take(e) and e <= t.len(); one more emission step on t.
    if spec_should_emit(e, t) {
        assert(t.take(e as int) + t.skip(e as int) =~= t);
        assert(spec_stream_out(texts) == t);
        assert(t.take(t.len() as int) =~= t);
    } else {
        assert(out + Seq::<char>::empty() =~= out);
    }
}

/// Law: streaming loses and garbles nothing. For any chain of successively
/// decoded texts — each extending the last, as decoding a growing token
/// sequence yields — the fragments emitted along the way followed by the
/// final flush equal the last text: exactly the one-shot decoding of the
/// whole sequence.
pub proof fn lemma_stream_round_trip(texts: Seq<Seq<char>>)
    requires
        texts.len() > 0,
        prefix_chain(texts),
    ensures
        spec_stream_out(texts) + spec_flush_fragment(spec_stream_emitted(texts), texts.last())
            == texts.last(),
{
    lemma_stream_invariant(texts);
    let e = spec_stream_emitted(texts);
    let t = texts.last();
    if e < t.len() {
        assert(t.take(e as int) + t.skip(e as int) =~= t);
    } else {
        assert(t.take(e as int) + Seq::<char>::empty() =~= t);
    }
}

} // verus!
