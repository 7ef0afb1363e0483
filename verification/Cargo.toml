[package]
name = "kuco"
version = "0.1.0"
edition = "2021"
publish = false

[dependencies]
async-trait = "0.1"
chrono = "0.4"
color-eyre = "0.6"
crossterm = { version = "0.28", features = ["event-stream"] }
dirs-next = "2"
futures = "0.3"
k8s-openapi = { version = "0.24", features = ["latest"] }
kube = "0.98"
nucleo-matcher = "0.3"
ratatui = "0.29"
redis = { version = "*", default-features = false, features = ["tokio-comp"] }
serde = { version = "1", features = ["derive"] }
serde_json = "1"
sqlx = { version = "0.8", default-features = false, features = ["runtime-tokio", "sqlite"] }
thiserror = "1"
tokio = { version = "1", features = ["full"] }
tracing = "0.1"
tracing-appender = "0.2"
tracing-subscriber = { version = "0.3", features = ["env-filter"] }
