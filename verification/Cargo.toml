[package]
name = "zebar"
version = "0.1.0"
edition = "2021"
publish = false

[dependencies]
libpulse-binding = "2"
swayipc-async = "2"
tokio = { version = "1", features = ["rt", "rt-multi-thread", "sync", "macros", "time"] }
tokio-util = "0.7"
tracing = "0.1"
anyhow = "1"
serde = { version = "1", features = ["derive"] }
futures-util = "0.3"
