[package]
name = "sms_terminal"
version = "0.1.0"
edition = "2021"
publish = false

[dependencies]
ansi-escape-sequences = "=0.1.0"
chrono = "=0.4.45"
clap = { version = "=4.6.7", features = ["derive"] }
color-eyre = "=0.6.5"
crossterm = "=0.29.0"
ratatui = "=0.30.2"
serde = { version = "=1.0.229", features = ["derive"] }
sms-client = { version = "=3.1.0", features = ["http", "websocket"] }
textwrap = "=0.16.4"
tokio = { version = "=1.53.2", features = ["rt", "macros", "sync", "time"] }
toml = "=1.1.6"
unicode-general-category = "=1.1.0"
unicode-width = "=0.2.2"
