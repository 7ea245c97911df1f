[package]
name = "glauncher"
version = "0.1.0"
edition = "2021"
publish = false

[dependencies]
crossterm = "0.27"
dirs = "5"
fork = "0.1"
ratatui = "0.26"
serde = { version = "1", features = ["derive"] }
toml = "0.8"
