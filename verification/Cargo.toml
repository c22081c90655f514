[package]
name = "chest_economy"
version = "0.1.0"
edition = "2021"
publish = false

[dependencies]
near-sdk = { version = "=5.1.0", features = ["legacy"] }
serde_json = "=1.0.154"
