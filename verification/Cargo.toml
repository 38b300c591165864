[package]
name = "source_manager"
version = "0.1.0"
edition = "2021"
publish = false

[dependencies]
anyhow = "=1.0.104"
bytes = "=1.12.1"
itertools = "=0.10.5"
parking_lot = "=0.12.5"
tokio = { version = "1", default-features = false, features = ["rt", "sync"] }
