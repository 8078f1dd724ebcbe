[package]
name = "nes_emu"
version = "0.1.0"
edition = "2021"
publish = false

[dependencies]
clap = { version = "4", features = ["derive"] }
minifb = "0.27"
slog = "2"
slog-term = "2"
slog-async = "2"
serde = { version = "1", features = ["derive"] }
serde_json = "1"
anyhow = "1"
