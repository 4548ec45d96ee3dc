[package]
name = "iroh_transfer"
version = "0.1.0"
edition = "2021"
publish = false

[dependencies]
iroh-base = { version = "0.28", features = ["key", "hash", "base32"] }
serde_json = "1"
tokio = { version = "1", features = ["time", "rt", "macros"] }
futures-lite = "2"
dirs = "5"
