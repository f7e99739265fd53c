[package]
name = "tg9"
version = "0.1.0"
edition = "2021"
publish = false

[dependencies]
anyhow = "=1.0.104"
crossterm = { version = "=0.27.0", features = ["event-stream"] }
futures = "=0.3.34"
grammers-client = "=0.6.0"
grammers-session = "=0.5.2"
ratatui = "=0.26.3"
signal-hook = "=0.3.18"
tokio = { version = "=1.54.1", features = ["full"] }
