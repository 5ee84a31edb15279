[package]
name = "binance_feed"
version = "0.1.0"
edition = "2021"
publish = false

[dependencies]
serde_json = "1"
rust_decimal = "1"
serde = { version = "1", features = ["derive"] }
async-trait = "0.1"
tokio-tungstenite = { version = "0.26", default-features = false }
rustls = { version = "0.23", default-features = false, features = ["ring", "std"] }
