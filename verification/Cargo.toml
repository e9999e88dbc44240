[package]
name = "servio"
version = "0.1.0"
edition = "2021"
publish = false

[dependencies]
tokio-tungstenite = "=0.30.0"
tokio = { version = "*", features = ["rt", "macros", "sync"] }
hyper = { version = "*", features = ["http1", "server"] }
hyper-util = { version = "*", features = ["tokio"] }
http = "*"
http-body = "*"
bytes = "*"
flume = "*"
futures-core = "*"
futures-util = "*"
serde = { version = "*", features = ["derive"] }
serde_json = "*"
