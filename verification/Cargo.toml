[package]
name = "encoding_broker"
version = "0.1.0"
edition = "2021"
publish = false

[dependencies]
serde = "1"
serde_derive = "1"
serde_json = "1"
jsonrpc-core = "18"
jsonrpc-pubsub = "18"
jsonrpc-ws-server = "18"
futures = "0.3"
