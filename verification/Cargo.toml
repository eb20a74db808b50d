[package]
name = "syscoin_client"
version = "0.1.0"
edition = "2021"
publish = false

[dependencies]
hex = "*"
serde_json = "*"
bitcoincore-rpc = "*"
reqwest = { version = "*", default-features = false, features = ["blocking"] }
