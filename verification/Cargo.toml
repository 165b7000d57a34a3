[package]
name = "palette_service"
version = "0.1.0"
edition = "2021"
publish = false

[dependencies]
material-colors = "=0.4.2"
axum = "*"
tokio = { version = "*", features = ["rt-multi-thread", "net", "macros"] }
serde = { version = "*", features = ["derive"] }
tower-http = { version = "*", features = ["trace"] }
tracing = "*"
anyhow = "*"
