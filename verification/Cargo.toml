[package]
name = "ibc_relayer_core"
version = "0.1.0"
edition = "2021"
publish = false

[dependencies]
prost-types = "*"
serde = { version = "*", features = ["derive"] }
serde_json = "*"
tendermint = "*"
