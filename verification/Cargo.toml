[package]
name = "cortex"
version = "0.1.0"
edition = "2021"
publish = false

[dependencies]
anyhow = "=1.0.104"
chrono = "=0.4.45"
crossterm = "=0.28.1"
ratatui = "=0.29.0"
tokio = { version = "=1.54.1", features = ["rt-multi-thread", "macros", "time", "process", "signal", "sync"] }
tracing = "=0.1.44"
