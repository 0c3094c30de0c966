[package]
name = "tendermintx_prover"
version = "0.1.0"
edition = "2021"
publish = false

[dependencies]
anyhow = "1"
axum = "0.7"
cfg-if = "1"
clap = { version = "4", features = ["derive"] }
dotenv = "0.15"
env_logger = "0.10"
ethers = { version = "2", default-features = false }
konst = "0.3"
log = "0.4"
reqwest = { version = "0.11", default-features = false, features = ["json"] }
serde = { version = "1", features = ["derive"] }
serde_json = "1"
sha2 = "0.10"
tendermint = "0.34"
tokio = { version = "1", features = ["full"] }
tower = { version = "0.4", features = ["limit", "util"] }
tower-http = { version = "0.5", features = ["catch-panic"] }
