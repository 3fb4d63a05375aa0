[package]
name = "sunangel"
version = "0.1.0"
edition = "2021"
publish = false

[dependencies]
serde_json = "*"
uuid = { version = "*", features = ["v4"] }
async-nats = "*"
tokio = { version = "*", features = ["rt-multi-thread", "macros"] }
futures-util = "*"
