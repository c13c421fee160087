[package]
name = "spawned-concurrency"
version = "0.1.0"
edition = "2021"
publish = false

[dependencies]
tokio = { version = "=1.54.1", features = ["rt", "rt-multi-thread", "sync", "time"] }
tokio-util = "=0.7.20"
futures = "=0.3.34"
tracing = "=0.1.44"
