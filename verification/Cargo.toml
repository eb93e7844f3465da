[package]
name = "quic_frame"
version = "0.1.0"
edition = "2021"
publish = false

[dependencies]
bytes = "1"
quinn = { version = "0.10", default-features = false, features = ["tls-rustls", "runtime-tokio"] }
rcgen = "0.12"
rustls = { version = "0.21", features = ["dangerous_configuration", "quic"] }
tokio = { version = "1", features = ["rt-multi-thread", "macros"] }
tracing = "0.1"
tracing-subscriber = { version = "0.3", features = ["env-filter"] }
