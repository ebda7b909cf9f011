[package]
name = "tcp_proxy"
version = "0.1.0"
edition = "2021"
publish = false

[dependencies]
clap = "4"
tokio = { version = "1", features = ["io-util", "macros", "net", "rt-multi-thread"] }
tracing = "0.1"
tracing-subscriber = { version = "0.3", features = ["env-filter"] }
