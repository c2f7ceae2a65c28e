[package]
name = "harview"
version = "0.0.1"
edition = "2021"
publish = false

[dependencies]
anyhow = "1"
byte-unit = "5"
clap = { version = "4", features = ["derive"] }
crossterm = "0.27"
mime = "0.3"
ratatui = "0.26"
serde = { version = "1", features = ["derive"] }
serde_derive = "1"
serde_json = "1"
tokio = { version = "1", features = ["macros", "rt-multi-thread", "sync", "time"] }
url = "=2.5.0"
