[package]
name = "tokio_tasks_shutdown"
version = "0.1.0"
edition = "2021"
publish = false

[dependencies]
tokio = { version = "1", features = ["rt", "rt-multi-thread", "sync", "time", "signal", "macros"] }
tokio-util = "0.7"
futures = "0.3"
arc-swap = "1"
log = "0.4"
thiserror = "1"
pin-project-lite = "0.2"

[dev-dependencies]
anyhow = "1"
