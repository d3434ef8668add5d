[package]
name = "rpc_subscriptions"
version = "0.1.0"
edition = "2021"
publish = false

[dependencies]
bs58 = "0.4"
serde_json = "1"
crossbeam-channel = "0.5"
tokio = { version = "1", default-features = false, features = ["sync"] }
