[package]
name = "redefyning"
version = "0.1.0"
edition = "2021"
publish = false

[dependencies]
ash = "0.38"
ash-window = "0.13"
raw-window-handle = "0.6"
once_cell = "1"
tokio = { version = "1", features = ["rt-multi-thread", "sync"] }
winit = "0.30"
