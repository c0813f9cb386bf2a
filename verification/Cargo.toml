[package]
name = "shurectl"
version = "0.1.0"
edition = "2021"
publish = false

[dependencies]
anyhow = "=1.0.104"
clap = { version = "=4.6.7", features = ["derive"] }
crossterm = "=0.29.0"
dirs-next = "=2.0.0"
hidapi = { version = "=2.6.7", default-features = false, features = ["linux-native-basic-udev"] }
ratatui = "=0.30.2"
serde = { version = "=1.0.229", features = ["derive"] }
toml = "=1.1.8"
