[package]
name = "churl"
version = "0.1.0"
edition = "2021"
publish = false

[dependencies]
ratatui = "*"
crossterm = { version = "*", features = ["event-stream"] }
edtui = "*"
tokio = { version = "1", features = ["rt", "sync", "time", "macros"] }
futures = "0.3"
reqwest = { version = "*", default-features = false }
color-eyre = "0.6"
dirs = "*"
