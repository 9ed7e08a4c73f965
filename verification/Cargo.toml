[package]
name = "atuin_ai"
version = "0.1.0"
edition = "2021"
publish = false

[dependencies]
serde_json = "=1.0.154"
url = "=2.5.8"
tokio = { version = "=1.54.1", features = ["sync", "rt", "macros"] }
crossterm = "=0.29.0"
ratatui = "=0.30.2"
ratatui-core = "=0.1.2"
tui-textarea = "*"
eye_declare = "=0.2.1"
reqwest = { version = "=0.13.5", features = ["stream", "json"] }
eventsource-stream = "=0.2.3"
futures = "=0.3.34"
async-stream = "=0.3.6"
eyre = "=0.6.14"
tracing = "=0.1.44"
