[package]
name = "mcp_math"
version = "0.1.0"
edition = "2021"
publish = false

[dependencies]
meval = "*"
anyhow = "*"
axum = "*"
clap = { version = "*", features = ["derive"] }
serde = { version = "*", features = ["derive"] }
serde_json = "*"
tokio = { version = "*", features = ["full"] }
tower-http = { version = "*", features = ["cors"] }
tracing = "*"
tracing-subscriber = "*"
