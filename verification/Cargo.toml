[package]
name = "herdr_sidebar"
version = "0.1.0"
edition = "2021"
publish = false

[dependencies]
crossterm = "*"
globset = "*"
ignore = "*"
ratatui = "*"
regex = "*"
serde = { version = "1", features = ["derive"] }
serde_json = "1"
unicode-width = "*"
