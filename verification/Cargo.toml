[package]
name = "bridge_relayer"
version = "0.1.0"
edition = "2021"
publish = false

[dependencies]
anyhow = "=1.0.104"
env_logger = "=0.11.11"
solana-sdk = "=1.18.26"
tokio = { version = "=1.54.1", features = ["macros", "rt-multi-thread", "time"] }
toml = "=0.5.11"
