[package]
name = "vault_core"
version = "0.1.0"
edition = "2021"
publish = false

[dependencies]
solana-program = "1.18"
solana-sdk = "1.18"
bs58 = "0.4"
clap = { version = "4", features = ["derive"] }
serde = { version = "1", features = ["derive"] }
serde_json = "1"
