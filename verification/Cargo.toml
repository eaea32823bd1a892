[package]
name = "dao-chain-client"
version = "0.1.0"
edition = "2021"
publish = false

[dependencies]
base64 = "0.22"
bip32 = "0.5"
cosmrs = { version = "0.22", features = ["bip32", "cosmwasm"] }
once_cell = "1"
reqwest = { version = "0.11", default-features = false, features = ["rustls-tls-native-roots"] }
serde = { version = "1", features = ["derive"] }
serde_json = "1"
serde_yaml = "0.9"
sha2 = "0.10"
tendermint-rpc = { version = "0.40", features = ["http-client"] }
thiserror = "1"
tokio = { version = "1", features = ["macros", "rt", "time"] }

[dev-dependencies]
signature = "2"
