[package]
name = "vanity_wallet"
version = "0.1.0"
edition = "2021"
publish = false

[dependencies]
anyhow = "1"
bs58 = "0.4"
chrono = { version = "0.4", features = ["serde"] }
clap = { version = "4", features = ["derive", "env"] }
dotenv = "0.15"
env_logger = "0.10"
log = "0.4"
mongodb = "2"
num_cpus = "1"
serde = { version = "1", features = ["derive"] }
solana-sdk = "1.18"
tokio = { version = "1", features = ["full"] }
