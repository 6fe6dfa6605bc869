[package]
name = "solana_service"
version = "0.1.0"
edition = "2021"
publish = false

[dependencies]
axum = "=0.8.9"
base64 = "=0.22.1"
bs58 = "=0.5.1"
serde = { version = "=1.0.229", features = ["derive"] }
solana-sdk = "=2.3.1"
spl-token = { version = "=7.0.0", features = ["no-entrypoint"] }
tokio = { version = "=1.53.2", features = ["macros", "rt-multi-thread", "net"] }
