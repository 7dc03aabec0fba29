[package]
name = "process_registry"
version = "0.1.0"
edition = "2021"
publish = false

[dependencies]
shell-words = "1"
uuid = { version = "1", features = ["v4"] }
tokio = { version = "1", features = ["process", "io-util", "rt", "rt-multi-thread"] }
serde = "1"
log = "0.4"
tauri = { version = "2", default-features = false }
tauri-plugin-log = "2"
