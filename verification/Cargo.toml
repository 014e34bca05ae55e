[package]
name = "hoshiguma_telemetry"
version = "0.1.0"
edition = "2021"
publish = false

[dependencies]
heapless = "0.8"
postcard = { version = "1", features = ["use-std"] }
serde = { version = "1", features = ["derive"] }
tokio = { version = "1", features = ["sync", "time", "io-util", "rt", "macros"] }
tokio-serial = { version = "5", default-features = false }
embedded-io-async = "0.6"
embassy-time = { version = "0.4", features = ["std"] }
