[package]
name = "gasket"
version = "0.1.0"
edition = "2021"
publish = false

[dependencies]
crossbeam = "0.8"
tokio = { version = "1", default-features = false, features = ["rt", "sync", "time", "net"] }
tracing = "0.1"
