//! Generation controller: one interactive session from prompt to
//! termination.
//!
//! The session walks `Idle -> Decoding -> Terminated`. Starting a session
//! clears the streaming decoder, encodes the prompt, echoes it as the
//! tokenizer renders it, and resolves the end-of-sequence token. Each decode
//! step hands the model the whole history on the first step and only the
//! newest token afterwards (the model keeps its own incremental cache),
//! plans the repeat-penalty transform, samples, appends to the history and
//! streams any newly safe text. The loop is bounded by the configured
//! maximum step count whether or not end-of-sequence ever appears.

use vstd::prelude::*;
use crate::backend;
use crate::context_start;
use crate::decoder::StreamDecoder;
use crate::errors::GenError;
use crate::penalty::PenaltyConfig;
use crate::penalty::penalty_window;
use crate::penalty::spec_window_start;
use crate::tok;

verus! {

/// The model that turns a context window and a position offset into logits.
/// Callers never branch on which variant computes them.
pub enum ModelKind {
    /// Full-precision Mistral weights.
    Mistral(candle_transformers::models::mistral::Model),
    /// Quantized Mistral weights.
    Quantized(candle_transformers::models::quantized_mistral::Model),
    /// Replays a fixed script of logits tensors, one per step, in place of
    /// a real model; the cursor is the next script entry to hand out.
    Fixed(Vec<candle_core::Tensor>, usize),
}

impl ModelKind {
    /// Whether this is the scripted stand-in.
    pub open spec fn is_fixed(self) -> bool {
        self is Fixed
    }

    /// The script of a fixed model (empty for real models).
    pub open spec fn spec_script(self) -> Seq<candle_core::Tensor> {
        match self {
            ModelKind::Fixed(script, _) => script@,
            _ => Seq::empty(),
        }
    }

    /// The cursor of a fixed model (zero for real models).
    pub open spec fn spec_cursor(self) -> nat {
        match self {
            ModelKind::Fixed(_, cursor) => cursor as nat,
            _ => 0,
        }
    }

    /// One forward pass: logits for the token after `input`, given that the
    /// model's incremental cache already covers the first `offset` positions.
    /// A fixed model hands out its next scripted tensor instead.
    pub fn forward(&mut self, input: &candle_core::Tensor, offset: usize) -> (r: Result<
        candle_core::Tensor,
        GenError,
    >)
        ensures
            r matches Err(e) ==> (e is Model || e is ModelExhausted),
            !old(self).is_fixed() ==> (r matches Err(e) ==> e is Model),
            (*old(self)) is Mistral <==> (*final(self)) is Mistral,
            (*old(self)) is Quantized <==> (*final(self)) is Quantized,
            old(self).is_fixed() <==> final(self).is_fixed(),
            final(self).spec_script() == old(self).spec_script(),
            old(self).is_fixed() && old(self).spec_cursor() < old(self).spec_script().len()
                ==> r == Ok::<_, GenError>(old(self).spec_script()[old(self).spec_cursor() as int])
                && final(self).spec_cursor() == old(self).spec_cursor() + 1,
            old(self).is_fixed() && old(self).spec_cursor() >= old(self).spec_script().len()
                ==> r == Err::<candle_core::Tensor, _>(GenError::ModelExhausted)
                && final(self).spec_cursor() == old(self).spec_cursor(),
    {
        match self {
            ModelKind::Mistral(m) => match backend::forward_mistral(m, input, offset) {
                Ok(t) => Ok(t),
                Err(e) => Err(GenError::Model(e)),
            },
            ModelKind::Quantized(m) => match backend::forward_quantized(m, input, offset) {
                Ok(t) => Ok(t),
                Err(e) => Err(GenError::Model(e)),
            },
            ModelKind::Fixed(script, cursor) => {
                if *cursor < script.len() {
                    let t = backend::clone_tensor(&script[*cursor]);
                    *cursor = *cursor + 1;
                    Ok(t)
                } else {
                    Err(GenError::ModelExhausted)
                }
            },
        }
    }
}

/// What a decode step must do to the raw logits before sampling.
pub enum LogitsPlan {
    /// The penalty factor is `1.0`: sample the forward output unchanged.
    Ready(candle_core::Tensor),
    /// Divide (nonnegative) or multiply (negative) the score of every token
    /// in `window` by the factor carried as `factor_bits`, then sample.
    Penalize { logits: candle_core::Tensor, window: Vec<u32>, factor_bits: u32 },
}

/// The repeat-penalty plan for one step: a required no-op when the factor
/// is `1.0`, otherwise the same logits together with the window of recent
/// history tokens the caller must rescale.
pub fn transform_plan(
    penalty: &PenaltyConfig,
    logits: candle_core::Tensor,
    history: &Vec<u32>,
) -> (r: LogitsPlan)
    ensures
        penalty.spec_disabled() ==> r == LogitsPlan::Ready(logits),
        !penalty.spec_disabled() ==> (r matches LogitsPlan::Penalize {
            logits: l,
            window,
            factor_bits,
        } && l == logits && window@ == history@.skip(
            spec_window_start(penalty.last_n as nat, history@.len()) as int,
        ) && factor_bits == penalty.factor_bits),
{
    if penalty.disabled() {
        LogitsPlan::Ready(logits)
    } else {
        let window = penalty_window(penalty, history);
        LogitsPlan::Penalize { logits, window, factor_bits: penalty.factor_bits }
    }
}

/// Where a session stands.
pub enum Phase {
    /// No prompt accepted yet.
    Idle,
    /// Prompt consumed; decode steps may run.
    Decoding,
    /// End-of-sequence, the step budget, or a fatal error ended the session.
    Terminated,
}

/// What one decode step produced.
#[derive(Debug)]
pub struct StepOutput {
    /// The sampled token id, already appended to the history.
    pub token: u32,
    /// Text that became safe to show this step, if any.
    pub fragment: Option<String>,
    /// Whether the session just terminated.
    pub done: bool,
}

/// Summary of a finished session.
#[derive(Debug)]
pub struct Report {
    /// Tokens generated after the prompt, not counting end-of-sequence.
    pub generated_tokens: usize,
    /// Text still buffered when the session ended, if any.
    pub final_fragment: Option<String>,
}

/// One interactive generation session: model, sampler, penalty settings,
/// streaming decoder and the history built so far.
pub struct TextGeneration {
    /// Computes logits from context windows.
    pub model: ModelKind,
    /// Where input tensors are placed.
    pub device: candle_core::Device,
    /// Streams accumulated tokens out as text.
    pub decoder: StreamDecoder,
    /// Seeded sampler applying the session's sampling policy.
    pub processor: candle_transformers::generation::LogitsProcessor,
    /// Repeat-penalty settings.
    pub penalty: PenaltyConfig,
    /// Where the session stands.
    pub phase: Phase,
    /// Prompt tokens followed by every sampled token, in order.
    pub history: Vec<u32>,
    /// End-of-sequence token id, resolved at session start.
    pub eos_token: u32,
    /// Maximum number of decode steps for this session.
    pub sample_len: usize,
    /// Decode steps taken so far this session.
    pub steps: usize,
    /// Tokens generated so far, not counting end-of-sequence.
    pub generated: usize,
}

impl TextGeneration {
    /// Session bookkeeping stays consistent: the step count never passes the
    /// budget, a decoding session still has budget left, and the generated
    /// count never exceeds the step count.
    pub open spec fn wf(self) -> bool {
        &&& self.decoder.wf()
        &&& self.generated <= self.steps <= self.sample_len
        &&& (self.phase is Decoding ==> self.steps < self.sample_len)
    }

    /// A new controller around a model, tokenizer, seeded sampler and
    /// penalty settings, ready to accept a prompt.
    pub fn new(
        model: ModelKind,
        tokenizer: tokenizers::Tokenizer,
        processor: candle_transformers::generation::LogitsProcessor,
        penalty: PenaltyConfig,
        device: candle_core::Device,
    ) -> (r: TextGeneration)
        ensures
            r.wf(),
            r.phase is Idle,
            r.model == model,
            r.penalty == penalty,
            r.steps == 0,
            r.generated == 0,
            r.history@ == Seq::<u32>::empty(),
            r.decoder.tokens@ == Seq::<u32>::empty(),
            r.decoder.emitted == 0,
            r.decoder.out@ == Seq::<char>::empty(),
    {
        TextGeneration {
            model,
            device,
            decoder: StreamDecoder::new(tokenizer),
            processor,
            penalty,
            phase: Phase::Idle,
            history: Vec::new(),
            eos_token: 0,
            sample_len: 0,
            steps: 0,
            generated: 0,
        }
    }

    /// Begin a session: reset the decoder so nothing of an earlier session
    /// can leak, encode the prompt, echo it exactly as tokenized, and
    /// resolve the end-of-sequence token — fatally if the vocabulary lacks
    /// it. A fresh seeded sampler comes in with each prompt so every session
    /// reproduces from its seed. A failed start discards the session's
    /// partial state: history and decoder come out empty.
    pub fn start(
        &mut self,
        processor: candle_transformers::generation::LogitsProcessor,
        prompt: &str,
        sample_len: usize,
    ) -> (r: Result<String, GenError>)
        requires
            old(self).wf(),
        ensures
            final(self).wf(),
            final(self).model == old(self).model,
            final(self).penalty == old(self).penalty,
            final(self).device == old(self).device,
            final(self).decoder.tokenizer == old(self).decoder.tokenizer,
            match r {
                Ok(echo) => {
                    &&& final(self).phase is Decoding <==> sample_len > 0
                    &&& final(self).phase is Terminated <==> sample_len == 0
                    &&& final(self).steps == 0
                    &&& final(self).generated == 0
                    &&& final(self).sample_len == sample_len
                    &&& final(self).decoder.tokens@ == final(self).history@
                    &&& echo@ == final(self).decoder.out@
                },
                Err(e) => {
                    &&& final(self).phase is Idle
                    &&& (e is Tokenizer || e is MissingEos)
                    &&& final(self).history@ == Seq::<u32>::empty()
                    &&& final(self).decoder.tokens@ == Seq::<u32>::empty()
                    &&& final(self).decoder.out@ == Seq::<char>::empty()
                    &&& final(self).steps == 0
                    &&& final(self).generated == 0
                    &&& final(self).sample_len == sample_len
                },
            },
    {
        self.phase = Phase::Idle;
        self.steps = 0;
        self.generated = 0;
        self.sample_len = sample_len;
        self.processor = processor;
        self.decoder.clear();
        self.history = Vec::new();
        let ids = match tok::encode_text(&self.decoder.tokenizer, prompt) {
            Some(v) => v,
            None => {
                return Err(GenError::Tokenizer);
            },
        };
        let eos = match tok::token_id(&self.decoder.tokenizer, "</s>") {
            Some(t) => t,
            None => {
                return Err(GenError::MissingEos);
            },
        };
        self.eos_token = eos;
        self.history = ids;
        let mut echo: Vec<char> = Vec::new();
        let mut i: usize = 0;
        while i < self.history.len()
            invariant
                i <= self.history@.len(),
                self.decoder.wf(),
                self.decoder.tokenizer == old(self).decoder.tokenizer,
                self.decoder.tokens@ == self.history@.take(i as int),
                self.decoder.out@ == echo@,
                self.model == old(self).model,
                self.penalty == old(self).penalty,
                self.device == old(self).device,
                self.steps == 0,
                self.generated == 0,
                self.sample_len == sample_len,
                self.phase is Idle,
            decreases self.history@.len() - i,
        {
            let t = self.history[i];
            match self.decoder.next_token(t) {
                Ok(Some(f)) => {
                    append_chars(&mut echo, &f);
                },
                Ok(None) => {},
                Err(_) => {
                    self.decoder.clear();
                    self.history = Vec::new();
                    return Err(GenError::Tokenizer);
                },
            }
            proof {
                assert(self.history@.take(i + 1 as int) == self.history@.take(i as int).push(
                    self.history@[i as int],
                ));
            }
            i = i + 1;
        }
        proof {
            assert(self.history@.take(self.history@.len() as int) =~= self.history@);
        }
        self.phase = if sample_len > 0 {
            Phase::Decoding
        } else {
            Phase::Terminated
        };
        Ok(tok::string_of_chars(&echo))
    }

    /// First half of a decode step: hand the model its context window — the
    /// whole history on step zero, only the newest token afterwards, with
    /// the position offset the cache expects — and plan the repeat-penalty
    /// transform on the returned logits. The plan is provably `Ready`, the
    /// logits untouched, exactly when the penalty factor is `1.0`; otherwise
    /// it is provably `Penalize`. A failed forward pass terminates the
    /// session: its incremental cache cannot be trusted, so no step may run
    /// after an error.
    pub fn step_logits(&mut self) -> (r: Result<LogitsPlan, GenError>)
        requires
            old(self).wf(),
            old(self).phase is Decoding,
        ensures
            final(self).wf(),
            final(self).history == old(self).history,
            final(self).decoder == old(self).decoder,
            final(self).processor == old(self).processor,
            final(self).penalty == old(self).penalty,
            final(self).device == old(self).device,
            final(self).eos_token == old(self).eos_token,
            final(self).sample_len == old(self).sample_len,
            final(self).steps == old(self).steps,
            final(self).generated == old(self).generated,
            match r {
                Ok(plan) => {
                    &&& final(self).phase == old(self).phase
                    &&& (old(self).penalty.spec_disabled() ==> plan is Ready)
                    &&& (!old(self).penalty.spec_disabled() ==> plan is Penalize)
                    &&& (plan matches LogitsPlan::Penalize { window, factor_bits, .. } ==> window@
                        == old(self).history@.skip(
                        spec_window_start(
                            old(self).penalty.last_n as nat,
                            old(self).history@.len(),
                        ) as int,
                    ) && factor_bits == old(self).penalty.factor_bits)
                },
                Err(e) => (e is Model || e is ModelExhausted) && final(self).phase is Terminated,
            },
    {
        let ctx_start = context_start(self.steps, self.history.len());
        let ctx = tail_tokens(&self.history, ctx_start);
        let input = match backend::token_tensor(&ctx, &self.device) {
            Ok(t) => t,
            Err(e) => {
                self.phase = Phase::Terminated;
                return Err(GenError::Model(e));
            },
        };
        let raw = match self.model.forward(&input, ctx_start) {
            Ok(t) => t,
            Err(e) => {
                self.phase = Phase::Terminated;
                return Err(e);
            },
        };
        let logits = match backend::shape_logits(raw) {
            Ok(t) => t,
            Err(e) => {
                self.phase = Phase::Terminated;
                return Err(GenError::Model(e));
            },
        };
        Ok(transform_plan(&self.penalty, logits, &self.history))
    }

    /// Second half of a decode step, after any penalty transform: sample the
    /// next token, append it to the history, and either terminate — on
    /// end-of-sequence, which is neither counted nor decoded, or on the last
    /// budgeted step — or stream out whatever text became safe to show.
    pub fn step_commit(&mut self, logits: &candle_core::Tensor) -> (r: Result<
        StepOutput,
        GenError,
    >)
        requires
            old(self).wf(),
            old(self).phase is Decoding,
        ensures
            final(self).wf(),
            final(self).model == old(self).model,
            final(self).device == old(self).device,
            final(self).penalty == old(self).penalty,
            final(self).eos_token == old(self).eos_token,
            final(self).sample_len == old(self).sample_len,
            final(self).decoder.tokenizer == old(self).decoder.tokenizer,
            match r {
                Ok(o) => {
                    &&& final(self).history@ == old(self).history@.push(o.token)
                    &&& final(self).steps == old(self).steps + 1
                    &&& (o.done <==> (o.token == old(self).eos_token || old(self).steps + 1 == old(self).sample_len))
                    &&& (o.done <==> final(self).phase is Terminated)
                    &&& (!o.done <==> final(self).phase is Decoding)
                    &&& final(self).generated == old(self).generated + (
                    if o.token == old(self).eos_token {
                        0int
                    } else {
                        1int
                    })
                    &&& (o.token == old(self).eos_token ==> final(self).decoder == old(self).decoder && o.fragment is None)
                    &&& (o.token != old(self).eos_token ==> final(self).decoder.tokens@ == old(self).decoder.tokens@.push(o.token))
                    &&& (match o.fragment {
                        Some(f) => final(self).decoder.out@ == old(self).decoder.out@ + f@,
                        None => final(self).decoder.out@ == old(self).decoder.out@,
                    })
                },
                Err(e) => final(self).phase is Terminated && (e is Model || e is Tokenizer),
            },
    {
        let token = match backend::sample_token(&mut self.processor, logits) {
            Ok(t) => t,
            Err(e) => {
                self.phase = Phase::Terminated;
                return Err(GenError::Model(e));
            },
        };
        self.history.push(token);
        self.steps = self.steps + 1;
        let mut done = token == self.eos_token;
        let mut fragment: Option<String> = None;
        if token != self.eos_token {
            self.generated = self.generated + 1;
            match self.decoder.next_token(token) {
                Ok(Some(f)) => {
                    fragment = Some(tok::string_of_chars(&f));
                },
                Ok(None) => {},
                Err(e) => {
                    self.phase = Phase::Terminated;
                    return Err(e);
                },
            }
            if self.steps == self.sample_len {
                done = true;
            }
        }
        self.phase = if done {
            Phase::Terminated
        } else {
            Phase::Decoding
        };
        Ok(StepOutput { token, fragment, done })
    }

    /// End of session: flush whatever text the decoder still buffers and
    /// report how many tokens were generated after the prompt.
    pub fn finish(&mut self) -> (r: Result<Report, GenError>)
        requires
            old(self).wf(),
        ensures
            final(self).wf(),
            final(self).model == old(self).model,
            final(self).phase == old(self).phase,
            final(self).history == old(self).history,
            final(self).decoder.tokens == old(self).decoder.tokens,
            final(self).eos_token == old(self).eos_token,
            final(self).sample_len == old(self).sample_len,
            final(self).steps == old(self).steps,
            final(self).generated == old(self).generated,
            match r {
                Ok(rep) => {
                    &&& rep.generated_tokens == old(self).generated
                    &&& (match rep.final_fragment {
                        Some(f) => final(self).decoder.out@ == old(self).decoder.out@ + f@,
                        None => final(self).decoder.out@ == old(self).decoder.out@,
                    })
                },
                Err(e) => e is Tokenizer,
            },
    {
        let final_fragment = match self.decoder.decode_rest() {
            Ok(Some(f)) => Some(tok::string_of_chars(&f)),
            Ok(None) => None,
            Err(e) => {
                return Err(e);
            },
        };
        Ok(Report { generated_tokens: self.generated, final_fragment })
    }
}

impl TextGeneration {
    /// A whole session in one call, for sessions without a repeat penalty
    /// (the transform would need unverified numeric code): start on the
    /// prompt, decode until end-of-sequence or the step budget runs out —
    /// the loop provably terminates within `sample_len` steps — and flush.
    /// Returns everything emitted, echo included, with the report. The
    /// history stays append-only: it is the decoder's token sequence (the
    /// encoded prompt, then each sampled token in order), plus the
    /// end-of-sequence token if one ended the session. Any failure leaves
    /// the session out of its decode loop, never to be resumed.
    pub fn run(
        &mut self,
        processor: candle_transformers::generation::LogitsProcessor,
        prompt: &str,
        sample_len: usize,
    ) -> (r: Result<(String, Report), GenError>)
        requires
            old(self).wf(),
            old(self).penalty.spec_disabled(),
        ensures
            final(self).wf(),
            match r {
                Ok(o) => {
                    &&& o.0@ == final(self).decoder.out@
                    &&& o.1.generated_tokens == final(self).generated
                    &&& final(self).generated <= final(self).steps <= sample_len
                    &&& final(self).phase is Terminated
                    &&& (final(self).history@ == final(self).decoder.tokens@ || final(self).history@ == final(self).decoder.tokens@.push(final(self).eos_token))
                },
                Err(e) => {
                    &&& !(final(self).phase is Decoding)
                    &&& (e is MissingEos ==> final(self).phase is Idle)
                },
            },
    {
        let echo = match self.start(processor, prompt, sample_len) {
            Ok(e) => e,
            Err(e) => {
                return Err(e);
            },
        };
        let mut collected: Vec<char> = tok::chars_of_string(&echo);
        let mut done: bool = sample_len == 0;
        while !done
            invariant
                self.wf(),
                !done ==> self.phase is Decoding,
                done ==> self.phase is Terminated,
                collected@ == self.decoder.out@,
                self.penalty.spec_disabled(),
                self.sample_len == sample_len,
                !done ==> self.history@ == self.decoder.tokens@,
                done ==> (self.history@ == self.decoder.tokens@ || self.history@
                    == self.decoder.tokens@.push(self.eos_token)),
            decreases self.sample_len - self.steps,
        {
            let plan = match self.step_logits() {
                Ok(p) => p,
                Err(e) => {
                    return Err(e);
                },
            };
            let logits = match plan {
                LogitsPlan::Ready(t) => t,
                LogitsPlan::Penalize { logits, .. } => {
                    proof {
                        assert(false);
                    }
                    logits
                },
            };
            let out = match self.step_commit(&logits) {
                Ok(o) => o,
                Err(e) => {
                    return Err(e);
                },
            };
            match out.fragment {
                Some(f) => {
                    let fc = tok::chars_of_string(&f);
                    append_chars(&mut collected, &fc);
                },
                None => {},
            }
            done = out.done;
        }
        let rep = match self.finish() {
            Ok(rep) => rep,
            Err(e) => {
                return Err(e);
            },
        };
        match &rep.final_fragment {
            Some(f) => {
                let fc = tok::chars_of_string(f);
                append_chars(&mut collected, &fc);
            },
            None => {},
        }
        Ok((tok::string_of_chars(&collected), rep))
    }
}

/// Law: the decode loop keeps within its budget. In a well-formed session
/// the step count never exceeds the configured maximum, and a session still
/// decoding always has budget left — so termination never depends on
/// end-of-sequence being sampled.
pub proof fn lemma_step_budget(s: TextGeneration)
    requires
        s.wf(),
    ensures
        s.steps <= s.sample_len,
        s.phase is Decoding ==> s.steps < s.sample_len,
{
}

/// Copy of `v[from..]`.
fn tail_tokens(v: &Vec<u32>, from: usize) -> (r: Vec<u32>)
    requires
        from <= v@.len(),
    ensures
        r@ == v@.skip(from as int),
{
    let mut out: Vec<u32> = Vec::new();
    let mut i: usize = from;
    while i < v.len()
        invariant
            from <= i <= v@.len(),
            out@ == v@.subrange(from as int, i as int),
        decreases v@.len() - i,
    {
        out.push(v[i]);
        assert(out@ == v@.subrange(from as int, i + 1 as int));
        i = i + 1;
    }
    assert(out@ == v@.skip(from as int));
    out
}

/// Append every character of `src` to `dst`, in order.
fn append_chars(dst: &mut Vec<char>, src: &Vec<char>)
    ensures
        final(dst)@ == old(dst)@ + src@,
{
    let mut i: usize = 0;
    while i < src.len()
        invariant
            i <= src@.len(),
            dst@ == old(dst)@ + src@.take(i as int),
        decreases src@.len() - i,
    {
        dst.push(src[i]);
        proof {
            assert(old(dst)@ + src@.take(i + 1 as int) =~= (old(dst)@ + src@.take(i as int)).push(
                src@[i as int],
            ));
        }
        i = i + 1;
    }
    proof {
        assert(old(dst)@ + src@.take(src@.len() as int) =~= old(dst)@ + src@);
    }
}

} // verus!
