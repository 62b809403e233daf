[package]
name = "fut_pool"
version = "0.1.0"
edition = "2021"
publish = false

[dependencies]
tokio-retry = "*"
parking_lot = "*"
futures = "*"
futures-timer = "*"
