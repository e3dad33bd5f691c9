[package]
name = "finai_budget"
version = "0.1.0"
edition = "2021"
publish = false

[dependencies]
solana-pubkey = { version = "=3.0.0", features = ["curve25519"] }
