[package]
name = "prost_canonical_serde"
version = "0.1.0"
edition = "2021"
publish = false

[dependencies]
serde = "1"
syn = { version = "2", features = ["full", "extra-traits"] }
quote = "1"
proc-macro2 = "1"

[dev-dependencies]
serde_json = "1"
