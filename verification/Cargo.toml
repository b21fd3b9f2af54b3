[package]
name = "auri"
version = "0.2.0"
edition = "2021"
publish = false

[dependencies]
anyhow = "=1.0.104"
base64 = "=0.22.1"
crossbeam-channel = "=0.5.17"
crossterm = "=0.28.1"
dirs = "=5.0.1"
image = { version = "=0.25.10", default-features = false, features = ["png", "jpeg"] }
lofty = "=0.22.4"
notify-rust = { version = "4", default-features = false, features = ["z"] }
ratatui = "=0.29.0"
rustfft = "=6.4.1"
serde = { version = "=1.0.229", features = ["derive"] }
symphonia = { version = "=0.5.5", features = ["mp3", "aac", "isomp4"] }
toml = "=0.8.23"
zbus = "=5.19.0"
