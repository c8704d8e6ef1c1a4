[package]
name = "chat_relay"
version = "0.1.0"
edition = "2021"
publish = false

[dependencies]
serde_json = "1"
uuid = { version = "1", features = ["v4"] }
tokio = { version = "1", features = ["macros", "net", "rt-multi-thread", "sync"] }
tokio-websockets = { version = "*", features = ["server", "sha1_smol"] }
futures-util = { version = "0.3", default-features = false, features = ["std", "sink"] }
