[package]
name = "gateway_shard"
version = "0.1.0"
edition = "2021"
publish = false

[dependencies]
url = "2"
serde = { version = "1", features = ["derive"] }
serde_json = "1"
tokio = { version = "1", features = ["net", "rt", "time"] }
tokio-tungstenite = "*"
reqwest = { version = "*", default-features = false }
futures-util = "0.3"
