[package]
name = "mymonitor"
version = "0.1.0"
edition = "2021"
publish = false

[dependencies]
sysinfo = "0.33"
chrono = { version = "0.4", features = ["serde"] }
crossterm = "0.28"
ratatui = "0.29"
serde = { version = "1", features = ["derive"] }
serde_json = "1"
tokio = { version = "1", features = ["full"] }
tokio-tungstenite = "0.24"
futures-util = "0.3"
libc = "0.2"
