[package]
name = "snarkos"
version = "0.1.0"
edition = "2021"
publish = false

[dependencies]
anyhow = "=1.0.104"
async-trait = "=0.1.92"
rand = "=0.8.8"
snarkvm = { version = "0.9", default-features = false, features = ["anyhow", "circuit", "colored", "console", "parameters", "rand", "serde_json", "synthesizer", "thiserror", "utilities"] }
tokio = { version = "=1.54.1", features = ["rt", "time"] }
