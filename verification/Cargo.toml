[package]
name = "spectre"
version = "0.1.0"
edition = "2021"
publish = false

[dependencies]
alloy-consensus = "*"
alloy-eips = "*"
alloy-genesis = "*"
alloy-network = "*"
alloy-primitives = "*"
alloy-signer = "*"
alloy-signer-local = "*"
rand = "0.8"
serde = { version = "*", features = ["derive"] }
serde_json = "*"
toml = "*"
clap = { version = "*", features = ["derive"] }
console = "*"
thiserror = "*"
tempfile = "*"
which = "*"
eth-keystore = "*"
