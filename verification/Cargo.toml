[package]
name = "ferrum"
version = "0.1.0"
edition = "2021"
publish = false

[dependencies]
anyhow = "1"
chrono = { version = "0.4", features = ["serde"] }
crossterm = "0.28"
dirs = "5"
ratatui = "0.29"
reqwest = "0.12"
serde = { version = "1", features = ["derive"] }
serde_json = "1"
syntect = "5"
tokio = { version = "1", features = ["full"] }
uuid = { version = "1", features = ["v4"] }
