[package]
name = "mcpx"
version = "0.1.0"
edition = "2021"
publish = false

[dependencies]
async-trait = "=0.1.92"
base64 = "=0.13.1"
dashmap = "=5.5.3"
futures = "0.3"
reqwest = { version = "0.12", default-features = false }
serde_json = "=1.0.154"
tokio = { version = "=1.54.1", features = ["sync", "time", "rt", "macros", "net"] }
tokio-stream = "0.1"
tokio-tungstenite = "*"
uri-template-system = "=0.1.5"
url = "=2.5.8"
uuid = { version = "=1.29.0", features = ["v4"] }
