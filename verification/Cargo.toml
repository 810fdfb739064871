[package]
name = "embedder"
version = "0.1.0"
edition = "2021"
publish = false

[dependencies]
candle-core = "*"
candle-nn = "*"
candle-transformers = "*"
tokenizers = "*"
serde_json = "*"
lazy_static = "*"
