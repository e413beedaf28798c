[package]
name = "kvcache"
version = "0.1.0"
edition = "2021"
publish = false

[dependencies]
dashmap = "*"
axum = "*"
tokio = { version = "*", features = ["rt-multi-thread", "macros", "net"] }
log = "*"
simple_logger = "*"
