//! Sampling-policy behaviour of the seeded sampler the sessions rely on.

use candle_core::{Device, Tensor};
use candle_transformers::generation::{LogitsProcessor, Sampling};
use textgen::penalty::PenaltyConfig;
use textgen::session::{LogitsPlan, ModelKind, TextGeneration};

fn logits(values: &[f32]) -> Tensor {
    Tensor::new(values, &Device::Cpu).unwrap()
}

#[test]
fn argmax_is_a_pure_function_of_the_logits() {
    // Deterministic sampling over the same logits sequence yields the same
    // token sequence, whatever the seed.
    let sequences = [
        [5.0f32, 1.0, 2.0],
        [0.0, 7.0, 2.0],
        [0.5, 0.5, 9.0],
    ];
    let mut first: Vec<u32> = Vec::new();
    let mut second: Vec<u32> = Vec::new();
    let mut a = LogitsProcessor::from_sampling(1, Sampling::ArgMax);
    let mut b = LogitsProcessor::from_sampling(99, Sampling::ArgMax);
    for values in &sequences {
        first.push(a.sample(&logits(values)).unwrap());
        second.push(b.sample(&logits(values)).unwrap());
    }
    assert_eq!(first, second);
    assert_eq!(first, vec![0, 1, 2]);
}

#[test]
fn top_k_restricts_support_to_k_tokens() {
    // With k = 2 over four tokens, only the two highest-scored ids may ever
    // be sampled, and both show up over many seeded draws.
    let mut processor = LogitsProcessor::from_sampling(42, Sampling::TopK { k: 2, temperature: 1.0 });
    let mut seen = [false; 4];
    for _ in 0..200 {
        let token = processor.sample(&logits(&[5.0, 4.0, 3.0, 2.0])).unwrap();
        assert!(token == 0 || token == 1, "token {token} is outside the top two");
        seen[token as usize] = true;
    }
    assert!(seen[0] && seen[1]);
}

#[test]
fn top_k_beyond_vocabulary_keeps_every_token() {
    // k larger than the vocabulary clamps to the whole vocabulary.
    let mut processor =
        LogitsProcessor::from_sampling(7, Sampling::TopK { k: 10, temperature: 1.0 });
    let mut seen = [false; 3];
    for _ in 0..300 {
        let token = processor.sample(&logits(&[1.0, 1.0, 1.0])).unwrap();
        seen[token as usize] = true;
    }
    assert!(seen[0] && seen[1] && seen[2]);
}

#[test]
fn top_p_with_dominant_token_keeps_only_it() {
    // One token holds far more than p of the probability mass: it alone is
    // eligible, so every draw returns it.
    let mut processor =
        LogitsProcessor::from_sampling(11, Sampling::TopP { p: 0.5, temperature: 1.0 });
    for _ in 0..100 {
        let token = processor.sample(&logits(&[10.0, 0.0, 0.0])).unwrap();
        assert_eq!(token, 0);
    }
}

#[test]
fn top_p_accumulates_to_the_cutoff() {
    // Two near-equal tokens each hold about half the mass; p = 0.9 needs
    // both, and the third (tiny) token stays excluded.
    let mut processor =
        LogitsProcessor::from_sampling(13, Sampling::TopP { p: 0.9, temperature: 1.0 });
    let mut seen = [false; 3];
    for _ in 0..200 {
        let token = processor.sample(&logits(&[8.0, 8.0, 0.0])).unwrap();
        assert!(token == 0 || token == 1, "token {token} is outside the nucleus");
        seen[token as usize] = true;
    }
    assert!(seen[0] && seen[1]);
}

#[test]
fn fixed_seed_reproduces_stochastic_sampling() {
    // The generator is seeded once per session: the same seed and the same
    // logits sequence reproduce the same tokens; sessions drive it through
    // the verified controller.
    let json = r#"{
        "version": "1.0",
        "truncation": null,
        "padding": null,
        "added_tokens": [],
        "normalizer": null,
        "pre_tokenizer": {"type": "Whitespace"},
        "post_processor": null,
        "decoder": null,
        "model": {
            "type": "WordLevel",
            "vocab": {"Hello": 0, "world": 1, "</s>": 2, "<unk>": 3},
            "unk_token": "<unk>"
        }
    }"#;
    let sampling = || Sampling::TopKThenTopP { k: 3, p: 0.95, temperature: 0.8 };
    let mut histories: Vec<Vec<u32>> = Vec::new();
    for _ in 0..2 {
        let tokenizer = tokenizers::Tokenizer::from_bytes(json).unwrap();
        let script = vec![logits(&[1.0, 1.1, 0.9, 0.0]); 4];
        let model = ModelKind::Fixed(script, 0);
        let processor = LogitsProcessor::from_sampling(123, sampling());
        let penalty = PenaltyConfig { factor_bits: 1.0f32.to_bits(), last_n: 8 };
        let mut session = TextGeneration::new(model, tokenizer, processor, penalty, Device::Cpu);
        session.start(LogitsProcessor::from_sampling(123, sampling()), "Hello", 4).unwrap();
        let mut tokens: Vec<u32> = Vec::new();
        loop {
            let plan = session.step_logits().unwrap();
            let out = match plan {
                LogitsPlan::Ready(t) => session.step_commit(&t).unwrap(),
                LogitsPlan::Penalize { .. } => panic!("penalty is disabled here"),
            };
            tokens.push(out.token);
            if out.done {
                break;
            }
        }
        histories.push(tokens);
    }
    assert_eq!(histories[0], histories[1]);
}
