[package]
name = "tea"
version = "0.1.0"
edition = "2021"
publish = false

[dependencies]
rusqlite = { version = "=0.40.2", features = ["limits", "fallible_uint"] }
chrono = "=0.4.45"
itertools = "=0.15.0"
serde = { version = "=1.0.229", features = ["derive"] }
serde_json = "=1.0.154"
thiserror = "=2.0.21"
anyhow = "=1.0.104"
log = "=0.4.34"
lazy_static = "*"
ron = "*"
