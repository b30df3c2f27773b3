[package]
name = "chain_requests"
version = "0.1.0"
edition = "2021"
publish = false

[dependencies]
hex = "*"
serde = { version = "*", features = ["derive"] }
tendermint = "*"
tonic = { version = "*", default-features = false }
ibc-proto = "*"
