[package]
name = "session_timer"
version = "0.1.0"
edition = "2021"
publish = false

[dependencies]
chrono = { version = "0.4", features = ["serde"] }
rodio = "0.21"
serde = { version = "1", features = ["derive"] }
tokio = { version = "1", features = ["time"] }
user-idle = "0.6"
