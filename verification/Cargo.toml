[package]
name = "ratatube"
version = "0.1.0"
edition = "2021"
publish = false

[dependencies]
unicode-width = "0.2"
serde = { version = "1", features = ["derive"] }
serde_json = "1"
tokio = { version = "1", features = ["rt-multi-thread", "macros", "net", "sync", "time", "io-util", "process", "fs"] }
tokio-util = "0.7"
ratatui = "0.29"
crossterm = "0.28"
image = { version = "0.25", default-features = false, features = ["png"] }
chrono = "0.4"
tracing = "0.1"
futures-util = "0.3"
