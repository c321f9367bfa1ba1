[package]
name = "actor_core"
version = "0.1.0"
edition = "2021"
publish = false

[dependencies]
chrono = "*"
futures = "*"
rand = "*"
uuid = { version = "*", features = ["v4"] }
