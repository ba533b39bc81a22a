[package]
name = "crypto_msg_parser"
version = "0.1.0"
edition = "2021"
publish = false

[dependencies]
crypto-market-type = "*"
crypto-pair = "*"
serde = { version = "*", features = ["derive"] }
serde_json = "*"
