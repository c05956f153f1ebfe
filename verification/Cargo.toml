[package]
name = "proposal_pipeline"
version = "0.1.0"
edition = "2021"
publish = false

[dependencies]
bincode = "1"
borsh = "0.10"
clap = { version = "4", features = ["cargo"] }
dotenv = "0.15"
env_logger = { version = "0.10", default-features = false }
log = "0.4"
serde = { version = "1", features = ["derive"] }
serde_json = "1"
solana-program = "=1.18.26"
solana-sdk = "=1.18.26"
spl-governance = "=4.0.0"
uriparse = "0.6"
