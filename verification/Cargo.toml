[package]
name = "eightvoice"
version = "0.1.0"
edition = "2021"
publish = false

[dependencies]
anyhow = "1"
arboard = { version = "3", default-features = false }
cpal = "0.15"
enigo = { version = "0.3", default-features = false, features = ["x11rb"] }
parking_lot = "0.12"
reqwest = { version = "0.12", default-features = false, features = ["json", "multipart"] }
rubato = "0.15"
serde = { version = "1", features = ["derive"] }
serde_json = "1"
tracing = "0.1"
tracing-subscriber = { version = "0.3", features = ["env-filter"] }
webrtc-vad = "0.4"
whisper-rs = "0.16"
