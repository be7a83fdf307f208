[package]
name = "grenache"
version = "0.1.0"
edition = "2021"
publish = false

[dependencies]
hyper = "0.12"
log = "0.4"
serde_json = "1"
tokio = "0.1"
uuid = { version = "*", features = ["v4"] }
