[package]
name = "watcher"
version = "0.1.0"
edition = "2021"
publish = false

[dependencies]
rusqlite = { version = "=0.41.1", features = ["bundled"] }
uuid = { version = "=1.29.0", features = ["v4"] }
chrono = "=0.4.45"
url = "=2.5.8"
csv = "=1.4.0"
clap = { version = "=4.6.7", features = ["derive"] }
serde = { version = "=1.0.229", features = ["derive"] }
serde_yaml = "=0.9.34"
dirs = "=7.0.0"
anyhow = "=1.0.104"
rand = "=0.9.5"
tokio = { version = "*", features = ["rt-multi-thread", "macros", "net", "time", "process", "io-util", "fs", "sync"] }
reqwest = "=0.12.28"
futures = "*"
serde_json = "*"
tracing = "*"
tracing-subscriber = { version = "*", default-features = false, features = ["fmt", "std", "ansi"] }
lettre = "=0.11.23"
umya-spreadsheet = "*"
ratatui = { version = "*", default-features = false, features = ["crossterm"] }
hickory-resolver = "*"
