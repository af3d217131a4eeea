//! Generation controller scenarios with a scripted model and a real
//! tokenizer and sampler.

use candle_core::{Device, Tensor};
use candle_transformers::generation::{LogitsProcessor, Sampling};
use textgen::penalty::PenaltyConfig;
use textgen::session::{LogitsPlan, ModelKind, TextGeneration};

fn toy_tokenizer() -> tokenizers::Tokenizer {
    let json = r#"{
        "version": "1.0",
        "truncation": null,
        "padding": null,
        "added_tokens": [],
        "normalizer": null,
        "pre_tokenizer": {"type": "Whitespace"},
        "post_processor": null,
        "decoder": null,
        "model": {
            "type": "WordLevel",
            "vocab": {"Hello": 0, "world": 1, "</s>": 2, "<unk>": 3,
                      "a": 4, "b": 5, "c": 6},
            "unk_token": "<unk>"
        }
    }"#;
    tokenizers::Tokenizer::from_bytes(json).unwrap()
}

fn logits(values: &[f32]) -> Tensor {
    Tensor::new(values, &Device::Cpu).unwrap()
}

fn argmax(seed: u64) -> LogitsProcessor {
    LogitsProcessor::from_sampling(seed, Sampling::ArgMax)
}

fn no_penalty() -> PenaltyConfig {
    PenaltyConfig { factor_bits: 1.0f32.to_bits(), last_n: 64 }
}

// Logits that rank "</s>" (id 2) highest.
fn eos_logits() -> Tensor {
    logits(&[0.0, 0.1, 5.0, 0.2, 0.0, 0.0, 0.0])
}

// Logits that rank "world" (id 1) highest.
fn world_logits() -> Tensor {
    logits(&[0.1, 5.0, 0.0, 0.2, 0.0, 0.0, 0.0])
}

#[test]
fn eos_on_first_step_generates_nothing() {
    let model = ModelKind::Fixed(vec![eos_logits()], 0);
    let mut session = TextGeneration::new(
        model,
        toy_tokenizer(),
        argmax(299792458),
        no_penalty(),
        Device::Cpu,
    );
    let (text, report) = session.run(argmax(299792458), "Hello", 100).unwrap();
    assert_eq!(text, "Hello");
    assert_eq!(report.generated_tokens, 0);
}

#[test]
fn stops_at_step_budget_without_eos() {
    let script = vec![
        world_logits(),
        world_logits(),
        world_logits(),
        world_logits(),
        world_logits(),
    ];
    let model = ModelKind::Fixed(script, 0);
    let mut session = TextGeneration::new(model, toy_tokenizer(), argmax(0), no_penalty(), Device::Cpu);
    let (text, report) = session.run(argmax(0), "Hello", 3).unwrap();
    assert_eq!(report.generated_tokens, 3);
    assert_eq!(text, "Hello world world world");
}

#[test]
fn fixed_seed_reproduces_token_sequence() {
    let mut outputs: Vec<String> = Vec::new();
    for _ in 0..2 {
        let script = vec![world_logits(), world_logits(), eos_logits()];
        let model = ModelKind::Fixed(script, 0);
        let mut session =
            TextGeneration::new(model, toy_tokenizer(), argmax(7), no_penalty(), Device::Cpu);
        let (text, report) = session.run(argmax(7), "Hello", 10).unwrap();
        assert_eq!(report.generated_tokens, 2);
        outputs.push(text);
    }
    assert_eq!(outputs[0], outputs[1]);
    assert_eq!(outputs[0], "Hello world world");
}

#[test]
fn repeat_penalty_suppresses_recent_tokens() {
    // History tail is [0, 1] ("Hello world"); ids 0 and 1 carry the two
    // highest raw scores, id 6 ("c") is just below them. With factor 1.1
    // over the last two tokens, neither 0 nor 1 survives as the argmax.
    let script = vec![logits(&[3.0, 2.9, 0.0, 0.0, 0.0, 0.0, 2.8])];
    let penalty = PenaltyConfig { factor_bits: 1.1f32.to_bits(), last_n: 2 };
    let model = ModelKind::Fixed(script, 0);
    let mut session = TextGeneration::new(model, toy_tokenizer(), argmax(0), penalty, Device::Cpu);
    let echo = session.start(argmax(0), "Hello world", 10).unwrap();
    assert_eq!(echo, "Hello world");
    let plan = session.step_logits().unwrap();
    let out = match plan {
        LogitsPlan::Ready(_) => panic!("an enabled penalty must not yield a ready plan"),
        LogitsPlan::Penalize { logits, window, factor_bits } => {
            assert_eq!(window, vec![0u32, 1]);
            assert_eq!(factor_bits, 1.1f32.to_bits());
            let transformed = candle_transformers::utils::apply_repeat_penalty(
                &logits,
                f32::from_bits(factor_bits),
                &window,
            )
            .unwrap();
            session.step_commit(&transformed).unwrap()
        },
    };
    assert_eq!(out.token, 6);
}

#[test]
fn penalty_window_covers_short_history() {
    // Only one token of history but a lookback of two: the window is the
    // whole history.
    let script = vec![logits(&[3.0, 0.0, 0.0, 0.0, 0.0, 0.0, 2.9])];
    let penalty = PenaltyConfig { factor_bits: 1.5f32.to_bits(), last_n: 2 };
    let model = ModelKind::Fixed(script, 0);
    let mut session = TextGeneration::new(model, toy_tokenizer(), argmax(0), penalty, Device::Cpu);
    session.start(argmax(0), "Hello", 10).unwrap();
    match session.step_logits().unwrap() {
        LogitsPlan::Ready(_) => panic!("an enabled penalty must not yield a ready plan"),
        LogitsPlan::Penalize { window, .. } => assert_eq!(window, vec![0u32]),
    }
}

#[test]
fn disabled_penalty_plan_keeps_logits_untouched() {
    let history = vec![0u32, 1];
    let plan = textgen::session::transform_plan(&no_penalty(), logits(&[1.5, -2.5]), &history);
    match plan {
        LogitsPlan::Ready(t) => {
            assert_eq!(t.to_vec1::<f32>().unwrap(), vec![1.5f32, -2.5]);
        },
        LogitsPlan::Penalize { .. } => panic!("factor 1.0 must be a no-op plan"),
    }
}

#[test]
fn sessions_are_isolated_by_clear() {
    let script = vec![eos_logits(), eos_logits()];
    let model = ModelKind::Fixed(script, 0);
    let mut session = TextGeneration::new(model, toy_tokenizer(), argmax(3), no_penalty(), Device::Cpu);
    let (first, _) = session.run(argmax(3), "Hello", 10).unwrap();
    assert_eq!(first, "Hello");
    // The second prompt starts from a cleared decoder: nothing of the first
    // session's text leaks into the second.
    let (second, _) = session.run(argmax(3), "world", 10).unwrap();
    assert_eq!(second, "world");
}

#[test]
fn missing_eos_token_is_fatal_at_start() {
    let json = r#"{
        "version": "1.0",
        "truncation": null,
        "padding": null,
        "added_tokens": [],
        "normalizer": null,
        "pre_tokenizer": {"type": "Whitespace"},
        "post_processor": null,
        "decoder": null,
        "model": {
            "type": "WordLevel",
            "vocab": {"Hello": 0, "<unk>": 1},
            "unk_token": "<unk>"
        }
    }"#;
    let tokenizer = tokenizers::Tokenizer::from_bytes(json).unwrap();
    let model = ModelKind::Fixed(vec![], 0);
    let mut session = TextGeneration::new(model, tokenizer, argmax(0), no_penalty(), Device::Cpu);
    let err = session.start(argmax(0), "Hello", 10).unwrap_err();
    assert!(matches!(err, textgen::errors::GenError::MissingEos));
    assert_eq!(err.describe(), "cannot find the </s> token");
}

#[test]
fn exhausted_script_fails_the_session() {
    let model = ModelKind::Fixed(vec![], 0);
    let mut session = TextGeneration::new(model, toy_tokenizer(), argmax(0), no_penalty(), Device::Cpu);
    let err = session.run(argmax(0), "Hello", 5).unwrap_err();
    assert!(matches!(err, textgen::errors::GenError::ModelExhausted));
}

#[test]
fn empty_logits_are_a_fatal_numeric_error() {
    // An empty logits vector must fail the session rather than divide by
    // zero anywhere downstream.
    let empty = Tensor::new(&[] as &[f32], &Device::Cpu).unwrap();
    let model = ModelKind::Fixed(vec![empty], 0);
    let mut session = TextGeneration::new(model, toy_tokenizer(), argmax(0), no_penalty(), Device::Cpu);
    let err = session.run(argmax(0), "Hello", 5).unwrap_err();
    assert!(matches!(err, textgen::errors::GenError::Model(_)));
}

#[test]
fn context_window_is_full_then_single() {
    // Step 0 hands the model the whole history; every later step only the
    // newest token, at the position the incremental cache expects.
    assert_eq!(textgen::context_start(0, 5), 0);
    assert_eq!(textgen::context_start(1, 6), 5);
    assert_eq!(textgen::context_start(3, 9), 8);
    assert_eq!(textgen::context_start(2, 0), 0);
}

#[test]
fn penalty_window_start_clamps_to_history() {
    assert_eq!(textgen::penalty::window_start(64, 3), 0);
    assert_eq!(textgen::penalty::window_start(2, 10), 8);
    assert_eq!(textgen::penalty::window_start(0, 10), 10);
}
