[package]
name = "crypto_price_tracker_v2"
version = "0.1.0"
edition = "2021"
publish = false

[dependencies]
coinbasis = { version = "*", features = ["serde"] }
cryptolytics = "*"
rust_decimal = "1"
chrono = { version = "0.4", features = ["serde"] }
serde = { version = "1", features = ["derive"] }
serde_json = "1"
thiserror = "1"
anyhow = "1"
clap = { version = "4", features = ["derive"] }
tokio = { version = "1", features = ["full"] }
futures = "0.3"
crossterm = { version = "0.28", features = ["event-stream"] }
ratatui = "0.29"
coingecko = "1"
