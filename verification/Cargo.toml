[package]
name = "baby_rocs"
version = "0.1.0"
edition = "2021"
publish = false

[dependencies]
anyhow = "*"
clap = { version = "*", features = ["derive"] }
crossbeam-queue = "*"
crossterm = "*"
ctrlc = "*"
deep_filter = "*"
hound = "*"
json5 = "*"
ndarray = "*"
portaudio = "*"
ratatui = "*"
regex = "*"
serde = { version = "*", features = ["derive"] }
webrtc-audio-processing = "*"
