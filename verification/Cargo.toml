[package]
name = "madamiru"
version = "0.1.0"
edition = "2021"
publish = false

[dependencies]
typed-path = "=0.13.0"
dirs = "=7.0.0"
globetter = "=0.2.0"
serde = { version = "=1.0.229", features = ["derive"] }
serde_yaml = "=0.8.26"
