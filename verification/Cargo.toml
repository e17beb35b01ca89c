[package]
name = "wta"
version = "0.1.0"
edition = "2021"
publish = false

[dependencies]
textwrap = "*"
unicode-width = "*"
serde_json = "*"
uuid = { version = "*", features = ["v4"] }
anyhow = "*"
clap = { version = "*", features = ["derive"] }
crossterm = "*"
ratatui = "*"
serde = { version = "*", features = ["derive"] }
sys-locale = "*"
tokio = { version = "*", features = ["rt", "rt-multi-thread", "macros", "process", "sync", "time", "io-util"] }
tracing = "*"
agent-client-protocol = "*"
