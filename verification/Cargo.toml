[package]
name = "dmodman"
version = "0.1.0"
edition = "2021"
publish = false

[dependencies]
clap = "4"
ratatui = { version = "0.29", default-features = false, features = ["termion"] }
reqwest = { version = "0.12", default-features = false, features = ["stream", "rustls-tls"] }
serde = { version = "1", features = ["derive"] }
serde_json = "1"
signal-hook = "0.3"
signal-hook-tokio = { version = "0.3", features = ["futures-v0_3"] }
termion = "4"
tokio = { version = "1", features = ["full"] }
tokio-stream = "0.1"
