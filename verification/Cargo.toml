[package]
name = "can_telemetry"
version = "0.1.0"
edition = "2021"
publish = false

[dependencies]
embedded-can = "=0.4.1"
socketcan = { version = "=4.0.0", features = ["tokio"] }
tokio = { version = "=1.53.2", features = ["rt-multi-thread", "macros", "net", "time", "io-util", "sync"] }
clap = { version = "=4.6.7", features = ["derive"] }
tracing = "=0.1.44"
tracing-subscriber = { version = "=0.3.23", features = ["env-filter", "fmt"] }
network-interface = "=2.0.5"
