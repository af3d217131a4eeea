[package]
name = "textgen"
version = "0.1.0"
edition = "2021"
publish = false

[dependencies]
tokenizers = { version = "*", default-features = false, features = ["onig"] }
candle-core = "=0.9.2"
candle-transformers = "=0.9.2"
candle-nn = "=0.9.2"
clap = { version = "*", features = ["derive"] }
anyhow = "*"
hf-hub = "=0.3.2"
serde_json = "*"
