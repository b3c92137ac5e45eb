[package]
name = "threads_rs"
version = "0.1.0"
edition = "2021"
publish = false

[dependencies]
chrono = { version = "0.4", default-features = false, features = ["std"] }
tokio = { version = "1", features = ["time"] }
tracing = { version = "0.1", default-features = false, features = ["std"] }
