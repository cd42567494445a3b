[package]
name = "codex_agent_lib"
version = "0.1.0"
edition = "2021"
publish = false

[dependencies]
strip-ansi-escapes = "*"
tokio = { version = "*", features = ["sync", "rt", "rt-multi-thread", "time", "fs", "macros"] }
tokio-stream = "*"
serde = { version = "*", features = ["derive"] }
serde_json = "*"
uuid = { version = "*", features = ["v4"] }
crossterm = "*"
ratatui = "*"
typed-builder = "*"
