[package]
name = "bus_log_bridge"
version = "0.1.0"
edition = "2021"
publish = false

[dependencies]
kafka = { version = "*", default-features = false }
nats = "*"
