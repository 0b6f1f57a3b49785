[package]
name = "inference_gateway"
version = "0.1.0"
edition = "2021"
publish = false

[dependencies]
anyhow = "=1.0.104"
async-trait = "=0.1.92"
candle-core = "=0.8.4"
candle-transformers = "=0.8.4"
hf-hub = "=0.3.2"
parking_lot = "=0.12.5"
rocket = { version = "=0.5.2", features = ["json"] }
serde = { version = "=1.0.229", features = ["derive"] }
tokenizers = { version = "=0.20.4", default-features = false, features = ["unstable_wasm"] }
tokio = { version = "=1.54.1", features = ["sync", "time", "rt", "macros"] }
