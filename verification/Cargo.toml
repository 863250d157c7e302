[package]
name = "screensaver"
version = "0.1.0"
edition = "2021"
publish = false

[dependencies]
anyhow = "1"
crossterm = "0.28"
globe = "*"
ratatui = { version = "0.29", features = ["unstable-widget-ref"] }
systemstat = "0.2"
walkdir = "2"
