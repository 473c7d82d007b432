[package]
name = "inf_edit"
version = "0.1.0"
edition = "2021"
publish = false

[dependencies]
unicode-segmentation = "1"
anyhow = "1"
crossterm = "*"
ratatui = "*"
tui-term = "*"
portable-pty = "*"
serde = { version = "1", features = ["derive"] }
toml = "*"
directories-next = "2"
chrono = "0.4"
walkdir = "2"
