[package]
name = "funhou"
version = "0.1.0"
edition = "2021"
publish = false

[dependencies]
block2 = "0.6"
chrono = "0.4"
core-graphics = "0.25"
dirs = "*"
font-kit = "0.14"
objc2 = "0.6"
objc2-avf-audio = "0.3"
objc2-foundation = "0.3"
objc2-speech = "0.3"
portable-pty = "0.9"
serde = { version = "1", features = ["derive"] }
serde_json = "1"
tauri = { version = "2", default-features = false }
uuid = { version = "1", features = ["v4"] }
