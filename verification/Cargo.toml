[package]
name = "solana_onchain_rate_limiter"
version = "0.1.0"
edition = "2021"
publish = false

[dependencies]
borsh = { version = "1", features = ["derive"] }
thiserror = "1"
