[package]
name = "trading_adapters"
version = "0.1.0"
edition = "2021"
publish = false

[dependencies]
anyhow = "1"
chrono = { version = "0.4", default-features = false, features = ["alloc", "std", "clock"] }
futures-util = { version = "0.3", features = ["sink"] }
log = "0.4"
pyo3 = "*"
pyo3-async-runtimes = { version = "*", features = ["tokio-runtime"] }
serde = { version = "1", features = ["derive"] }
serde_json = "1"
thiserror = "*"
tokio = { version = "1", features = ["rt-multi-thread", "macros", "sync", "time"] }
tokio-stream = "0.1"
tokio-tungstenite = "*"
tracing = "0.1"
ustr = { version = "1", features = ["serde"] }
zmq = "*"
