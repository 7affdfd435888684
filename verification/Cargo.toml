[package]
name = "execute_core"
version = "0.1.0"
edition = "2021"
publish = false

[dependencies]
base64 = "*"
psutil = "*"
serde = { version = "*", features = ["derive"] }
serde_json = "*"
tokio = { version = "*", features = ["full"] }
