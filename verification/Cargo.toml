[package]
name = "auth_core"
version = "0.1.0"
edition = "2021"
publish = false

[dependencies]
rust-argon2 = "*"
chashmap = "*"
rand = "*"
validator = "*"
mongodb = "*"
redis = "*"
serde = { version = "*", features = ["derive"] }
serde_json = "*"
tokio = { version = "*", features = ["rt-multi-thread", "macros"] }
futures = "*"
