[package]
name = "radio_cli"
version = "0.1.0"
edition = "2021"
publish = false

[dependencies]
rand = "0.8"
chrono = "*"
crossterm = "*"
dirs-next = "*"
lazy_static = "*"
ratatui = "*"
reqwest = { version = "*", default-features = false }
rodio = "*"
rusqlite = { version = "*", features = ["bundled"] }
rust-embed = "*"
tokio = { version = "*", features = ["rt-multi-thread"] }
