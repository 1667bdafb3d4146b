[package]
name = "twopane"
version = "0.1.0"
edition = "2021"
publish = false

[dependencies]
textwrap = "*"
anyhow = "*"
crossterm = { version = "*", features = ["event-stream"] }
ratatui = "*"
tokio = { version = "*", features = ["macros", "rt-multi-thread", "process", "io-util"] }
tokio-stream = "*"
