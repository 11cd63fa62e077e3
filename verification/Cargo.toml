[package]
name = "trailerfin"
version = "0.1.0"
edition = "2021"
publish = false

[dependencies]
redb = "*"
regex = "*"
scraper = "*"
serde_json = "*"
serde = { version = "*", features = ["derive"] }
reqwest = { version = "*", default-features = false }
tokio = { version = "*", features = ["rt-multi-thread", "macros", "sync", "signal", "time"] }
tokio-cron-scheduler = "*"
governor = "*"
walkdir = "*"
anyhow = "*"
futures = "*"
