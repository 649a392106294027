[package]
name = "aptos_lc"
version = "0.1.0"
edition = "2021"
publish = false

[dependencies]
anyhow = "1"
bcs = "0.1.6"
clap = { version = "4", features = ["derive"] }
env_logger = "0.11"
getset = "0.1"
log = "0.4"
reqwest = { version = "0.12", default-features = false }
serde = { version = "1", features = ["derive"] }
thiserror = "1"
tiny-keccak = { version = "2.0.2", features = ["sha3"] }
tokio = { version = "1", features = ["full"] }
