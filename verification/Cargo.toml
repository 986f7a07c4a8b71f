[package]
name = "pumpfun"
version = "0.1.0"
edition = "2021"
publish = false

[dependencies]
solana-sdk = "*"
spl-associated-token-account = "*"
isahc = "*"
serde = { version = "*", features = ["derive"] }
serde_json = "*"
