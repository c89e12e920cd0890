[package]
name = "launch_handoff"
version = "0.1.0"
edition = "2021"
publish = false

[dependencies]
reqwest = { version = "0.12", default-features = false, features = ["rustls-tls"] }
tauri = { version = "2", default-features = false }
tokio = { version = "1", features = ["io-util", "net", "rt", "sync", "time"] }
