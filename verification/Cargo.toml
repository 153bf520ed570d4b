[package]
name = "server_bootstrap"
version = "0.1.0"
edition = "2021"
publish = false

[dependencies]
axum = "*"
tokio = { version = "*", features = ["net", "rt"] }
tower-http = { version = "*", features = ["cors", "trace"] }
tracing = "*"
