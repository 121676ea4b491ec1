[package]
name = "sol_trade_sdk"
version = "0.1.0"
edition = "2021"
publish = false

[dependencies]
anyhow = "=1.0.104"
solana-sdk = { version = "=2.3.1", default-features = false }
