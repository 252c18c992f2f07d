[package]
name = "buggle"
version = "0.1.0"
edition = "2021"
publish = false

[dependencies]
config = "0.13"
hyper = { version = "0.14", features = ["full"] }
hyper-tls = "0.5"
oauth1-request = "0.5"
serde = { version = "1", features = ["derive"] }
serde_json = "1"
tokio = { version = "1", features = ["full"] }
