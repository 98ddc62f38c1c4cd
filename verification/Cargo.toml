[package]
name = "kuantum"
version = "0.1.0"
edition = "2021"
publish = false

[dependencies]
ring = "*"
hex = "*"
rand = "0.8"
uuid = { version = "*", features = ["v4"] }
anyhow = "*"
tokio = { version = "*", features = ["full"] }
futures = "*"
libp2p = { version = "*", features = ["floodsub", "mdns", "tokio", "tcp", "noise", "yamux", "macros"] }
