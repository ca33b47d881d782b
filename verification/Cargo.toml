[package]
name = "balter"
version = "0.1.0"
edition = "2021"
publish = false

[dependencies]
arc-swap = "*"
governor = "*"
metrics = "*"
tokio = { version = "*", features = ["macros", "rt-multi-thread", "sync", "time"] }
tracing = "*"
