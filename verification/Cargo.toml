[package]
name = "oxc_parser_cli"
version = "0.1.0"
edition = "2021"
rust-version = "1.95"
publish = false

[dependencies]
clap = { version = "=4.6.7", features = ["derive"] }
color-eyre = "=0.6.5"
crossterm = { version = "=0.29.0", features = ["event-stream"] }
oxc = "=0.141.0"
ratatui = "=0.30.2"
tokio = { version = "=1.54.1", features = ["fs", "macros", "rt-multi-thread", "sync"] }
tokio-stream = "=0.1.19"
