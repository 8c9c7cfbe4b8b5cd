[package]
name = "pty_bridge"
version = "0.1.0"
edition = "2021"
publish = false

[dependencies]
anyhow = "*"
bytes = "*"
futures = "*"
http = "*"
log = "*"
portable-pty = "*"
serde_json = "*"
tokio = { version = "*", features = ["net", "rt-multi-thread"] }
tokio-tungstenite = "*"
