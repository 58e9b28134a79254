[package]
name = "venue_feed"
version = "0.1.0"
edition = "2021"
publish = false

[dependencies]
async-trait = "0.1"
crypto-market-type = "*"
crypto-msg-type = "*"
crypto-pair = "*"
flate2 = "1"
futures-util = "0.3"
governor = "*"
log = "0.4"
nonzero_ext = "*"
serde = { version = "1", features = ["derive"] }
serde_json = "1"
tokio = { version = "1", features = ["macros", "rt-multi-thread", "sync", "time"] }
tokio-tungstenite = "*"
