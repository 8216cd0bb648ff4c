[package]
name = "overlay_shell"
version = "0.1.0"
edition = "2021"
publish = false

[dependencies]
serde_json = "1"
serde = { version = "1", features = ["derive"] }
anyhow = "1"
tokio = { version = "1", features = ["rt-multi-thread", "net", "sync", "time", "macros"] }
tokio-tungstenite = "*"
futures-util = "*"
wgpu = "*"
image = { version = "*", default-features = false, features = ["png"] }
