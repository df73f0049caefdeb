[package]
name = "ownership_patterns"
version = "0.1.0"
edition = "2021"
publish = false

[dependencies]
gc = "*"
tokio = { version = "1", features = ["rt-multi-thread", "time"] }
