[package]
name = "voice-clip"
version = "0.1.0"
edition = "2021"
publish = false

[dependencies]
alsa = "0.9"
anyhow = "1"
chrono = "0.4"
hound = "3.5"
libc = "0.2"
reqwest = { version = "0.12", default-features = false, features = ["multipart", "rustls-tls"] }
serde_json = "1"
tokio = { version = "1", features = ["rt-multi-thread", "fs"] }
