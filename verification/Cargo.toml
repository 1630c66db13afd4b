[package]
name = "device_routing"
version = "0.1.0"
edition = "2021"
publish = false

[dependencies]
tdn = { version = "=0.5.9", default-features = false, features = ["full"] }
quinn = { version = "=0.8.5", default-features = false, features = ["tls-rustls", "ring"] }
