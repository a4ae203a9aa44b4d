[package]
name = "biliterm"
version = "0.1.0"
edition = "2021"
publish = false

[dependencies]
tokio = { version = "=1.54.1", features = ["rt", "sync", "time", "macros"] }
qrcode = { version = "=0.12.0", default-features = false }
tui = { version = "=0.19.0" }
crossterm = { version = "=0.25.0", features = ["event-stream"] }
futures = { version = "=0.3.34" }
bilive-danmaku = { version = "=0.3.0", features = ["rt_tokio"] }
