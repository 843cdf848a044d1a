[package]
name = "net_mux"
version = "0.1.0"
edition = "2021"
publish = false

[dependencies]
bytes = "1"
tokio = { version = "1", features = ["io-util", "sync", "time", "rt", "macros", "net"] }
tokio-util = { version = "0.7", features = ["codec"] }
futures-util = { version = "0.3", features = ["sink"] }
parking_lot = "0.12"
thiserror = "2"
tracing = "0.1"
