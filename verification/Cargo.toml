[package]
name = "dictation_core"
version = "0.1.0"
edition = "2021"
publish = false

[dependencies]
arboard = "*"
cpal = "*"
futures-util = "*"
rdev = "*"
reqwest = { version = "*", default-features = false, features = ["rustls-tls", "stream"] }
rubato = "*"
serde = "*"
serde_json = "*"
tokio = { version = "*", features = ["rt-multi-thread", "macros", "fs", "io-util"] }
whisper-rs = "*"
