[package]
name = "kucoin_websocket"
version = "0.1.0"
edition = "2021"
publish = false

[dependencies]
failure = "0.1"
futures = "0.3"
pin-project = "1"
reqwest = { version = "0.11", features = ["json"] }
serde = { version = "1", features = ["derive"] }
serde_json = "1"
streamunordered = "0.5"
tokio = { version = "1", features = ["io-util", "macros", "net", "rt-multi-thread", "sync", "time"] }
tokio-native-tls = "0.3"
tokio-tungstenite = { version = "0.13", features = ["tls"] }
url = "2"
