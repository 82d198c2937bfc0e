[package]
name = "exchange_core"
version = "0.1.0"
edition = "2021"
publish = false

[dependencies]
async-trait = "0.1"
chrono = { version = "0.4", default-features = false }
serde = { version = "1", features = ["derive"] }
solana-sdk = { version = "*", default-features = false }
thiserror = "1"
