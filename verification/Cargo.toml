[package]
name = "waypoint_rest"
version = "0.1.0"
edition = "2021"
publish = false

[dependencies]
hex = "0.4"
serde_json = "1"
serde = { version = "1", features = ["derive"] }
thiserror = "2"
async-trait = "0.1"
axum = "0.8"
tokio = { version = "1", features = ["rt-multi-thread", "net", "sync", "macros"] }
tokio-util = "0.7"
tracing = "0.1"
once_cell = "1"
utoipa = "5"
utoipa-swagger-ui = { version = "9", features = ["axum", "vendored"] }
