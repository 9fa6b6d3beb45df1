[package]
name = "mainnet_client"
version = "0.1.0"
edition = "2021"
publish = false

[dependencies]
hedera = "*"
anyhow = "1"
dotenv = "0.15"
env_logger = "*"
log = "0.4"
tokio = { version = "1", features = ["macros", "rt-multi-thread", "time"] }
