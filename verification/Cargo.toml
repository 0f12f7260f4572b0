[package]
name = "checkpoint_executor"
version = "0.1.0"
edition = "2021"
publish = false

[dependencies]
itertools = "0.13"
tokio = { version = "1", features = ["rt", "sync", "macros"] }
futures = "0.3"
async-stream = "0.3"
tracing = "0.1"
