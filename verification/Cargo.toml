[package]
name = "blockchain-indexer"
version = "0.1.1"
edition = "2021"
publish = false

[dependencies]
alloy-primitives = "*"
alloy-consensus = "*"
alloy-eips = "*"
alloy-network = "*"
alloy-rpc-types-eth = "*"
alloy-rpc-types-trace = "*"
alloy-serde = "*"
chrono = { version = "0.4", features = ["serde"] }
serde = { version = "1", features = ["derive"] }
serde_json = "1"
anyhow = "1"
thiserror = "*"
tracing = "0.1"
tracing-subscriber = { version = "0.3", features = ["env-filter"] }
tokio = { version = "1", features = ["full"] }
futures = "0.3"
fastrand = "2"
url = "2"
once_cell = "1"
config = { version = "*", default-features = false, features = ["yaml"] }
