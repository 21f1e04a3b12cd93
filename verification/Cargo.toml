[package]
name = "thespian"
version = "0.1.0"
edition = "2021"
publish = false

[dependencies]
anyhow = "1"
concurrent-queue = "2"
futures = "0.3"
smol = "2"
tokio = { version = "1", features = ["sync", "rt", "macros"] }
