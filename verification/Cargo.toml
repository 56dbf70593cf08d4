[package]
name = "tura"
version = "0.1.0"
edition = "2021"
publish = false

[dependencies]
strsim = "0.11"
clap = { version = "4", features = ["derive"] }
color-eyre = "0.6"
crossterm = "0.28"
ratatui = "0.29"
rodio = "0.21"
rusqlite = "0.32"
serde = { version = "1", features = ["derive"] }
serde_json = "1"
thiserror = "2"
