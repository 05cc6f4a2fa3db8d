[package]
name = "crontab"
version = "0.1.0"
edition = "2021"
publish = false

[dependencies]
cron = "=0.17.0"
chrono = "=0.4.45"
serde = { version = "=1.0.229", features = ["derive"] }
serde_json = "=1.0.151"
tokio = { version = "=1.53.2", features = ["macros", "net", "rt-multi-thread", "sync", "time"] }
reqwest = { version = "=0.13.5", default-features = false }
axum = "=0.8.9"
