[package]
name = "roder_tui"
version = "0.1.0"
edition = "2021"
publish = false

[dependencies]
base64 = "=0.22.1"
serde_json = "=1.0.154"
ratatui = "=0.29.0"
crossterm = "=0.28.1"
toml = "0.8"
dirs = "*"
anyhow = "1"
