[package]
name = "spl_faucet"
version = "0.1.0"
edition = "2021"
publish = false

[dependencies]
solana-program = "1.18"
spl-token = { version = "3.5", features = ["no-entrypoint"] }
bincode = "1"
serde = { version = "1", features = ["derive"] }
serde_json = "1"
thiserror = "1"
