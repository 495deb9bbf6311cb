[package]
name = "kara"
version = "0.1.0"
edition = "2021"
publish = false

[dependencies]
anyhow = "1"
cpal = "0.14"
crossbeam-channel = "=0.5.17"
dasp = { version = "=0.11.0", features = ["interpolate", "interpolate-sinc", "ring_buffer", "signal"] }
dirs = "5"
serde = { version = "1", features = ["derive"] }
toml = "0.8"
tracing = "0.1"
tracing-appender = "0.2"
tracing-subscriber = "0.3"
vosk = "=0.2.0"
