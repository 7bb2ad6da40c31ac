[package]
name = "metainfo_gateway"
version = "0.1.0"
edition = "2021"
publish = false

[dependencies]
anyhow = "*"
axum = "*"
axum-server = "*"
bytes = "*"
camino = "*"
hyper = "*"
hyper-util = "*"
librqbit = "*"
serde = { version = "*", features = ["derive"] }
thiserror = "*"
tower = { version = "*", features = ["timeout"] }
tower-http = { version = "*", features = ["trace"] }
tracing = "*"
