[package]
name = "sip_transaction"
version = "0.1.0"
edition = "2021"
publish = false

[dependencies]
rvoip-sip-core = "*"
rvoip-sip-transport = "*"
tokio = { version = "1", features = ["full"] }
async-trait = "*"
tracing = "*"
uuid = { version = "1", features = ["v4"] }
