[package]
name = "templar_bots"
version = "0.1.0"
edition = "2021"
publish = false

[dependencies]
async-trait = "0.1"
base64 = "=0.22.1"
clap = { version = "4", features = ["derive", "env"] }
ed25519-dalek = "=2.2.0"
futures = "0.3"
near-crypto = "=0.30.3"
near-jsonrpc-client = { version = "=0.17.0", default-features = false, features = ["rustls-tls"] }
near-jsonrpc-primitives = "=0.30.3"
near-primitives = "=0.30.3"
near-sdk = { version = "=5.16.0", features = ["non-contract-usage"] }
reqwest = { version = "=0.12.28", default-features = false, features = ["json", "rustls-tls"] }
serde_json = { version = "=1.0.154", features = ["raw_value"] }
thiserror = "2"
tokio = { version = "1", features = ["macros", "rt-multi-thread", "time"] }
tracing = "0.1"
tracing-subscriber = { version = "0.3", features = ["env-filter"] }
