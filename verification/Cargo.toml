[package]
name = "actuator_core"
version = "0.1.0"
edition = "2021"
publish = false

[dependencies]
anyhow = "*"
coap-lite = "*"
local-ip-address = "*"
serde = { version = "*", features = ["derive"] }
serde_json = "*"
