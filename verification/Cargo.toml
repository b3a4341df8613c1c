[package]
name = "gcp_twist_bridge"
version = "0.1.0"
edition = "2021"
publish = false

[dependencies]
argh = "0.1"
async-signal = "0.2"
async-std = { version = "1", features = ["attributes"] }
reqwest = { version = "0.11", features = ["blocking"] }
serde = { version = "1", features = ["derive"] }
serde_json = { version = "1", features = ["preserve_order"] }
tide = "0.16"
