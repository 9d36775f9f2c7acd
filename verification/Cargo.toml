[package]
name = "audio_player"
version = "0.1.0"
edition = "2021"
publish = false

[dependencies]
ringbuf = "0.4"
symphonia = { version = "0.5", features = ["all"] }
cpal = "0.15"
serde = { version = "1", features = ["derive"] }
serde_json = "1"
dirs = "5"
chrono = "0.4"
reqwest = { version = "0.12", features = ["json", "multipart", "stream"] }
tokio = { version = "1", features = ["full"] }
