[package]
name = "the_logger"
version = "0.1.0"
edition = "2021"
publish = false

[dependencies]
chrono = "0.4"
lazy_static = "1"
tokio = { version = "1", features = ["sync", "rt", "rt-multi-thread"] }
