[package]
name = "media_streamer"
version = "0.1.0"
edition = "2021"
publish = false

[dependencies]
actix-cors = "0.6"
actix-web = "4"
anyhow = "1"
base64 = "0.13"
clap = { version = "4", features = ["derive"] }
log = "0.4"
pretty_env_logger = "0.4"
serde_json = "1"
tokio = { version = "1", features = ["full"] }
webrtc = "0.6"
