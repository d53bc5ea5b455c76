[package]
name = "yfinance_pl"
version = "0.1.0"
edition = "2021"
publish = false

[dependencies]
chrono = "*"
tokio = { version = "*", features = ["rt", "rt-multi-thread"] }
yfinance-rs = "*"
paft = "*"
polars = "*"
