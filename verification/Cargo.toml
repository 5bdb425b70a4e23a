[package]
name = "comchat"
version = "0.1.0"
edition = "2021"
publish = false

[dependencies]
chrono = "0.4"
clap = { version = "4", features = ["derive"] }
crossterm = "0.28"
dirs-next = "2"
ratatui = "0.29"
serde = "1"
serde_derive = "1"
serialport = { version = "4", default-features = false }
thiserror = "1"
toml = "0.8"
