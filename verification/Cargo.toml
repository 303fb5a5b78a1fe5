[package]
name = "twob_keepers"
version = "0.1.0"
edition = "2021"
publish = false

[dependencies]
base64 = "=0.22.1"
tokio = { version = "=1.53.2", features = ["rt-multi-thread", "macros", "time"] }
futures-util = "=0.3.34"
anyhow = "=1.0.104"
dotenv = "=0.15.0"
deadpool-postgres = "=0.14.2"
tokio-postgres = "=0.7.18"
solana-pubsub-client = "=3.1.14"
solana-rpc-client-types = "=3.1.14"
solana-commitment-config = "*"
