[package]
name = "audio_record"
version = "0.1.0"
edition = "2021"
publish = false

[dependencies]
cpal = "*"
eyre = "*"
hound = "*"
serde = { version = "*", features = ["derive"] }
serde_json = "*"
