[package]
name = "fusabi-stdlib-ext"
version = "0.1.0"
edition = "2021"
publish = false

[dependencies]
crossterm = "=0.29.0"
fusabi-host = "=0.1.0"
k8s-openapi = { version = "=0.27.1", features = ["latest"] }
kube = { version = "=3.1.0", default-features = false, features = ["client"] }
lazy_static = "=1.5.1"
opentelemetry = "=0.33.1"
parking_lot = "=0.12.5"
ratatui = "=0.30.2"
serde = { version = "=1.0.229", features = ["derive"] }
serde_json = "=1.0.154"
sigilforge-client = "=0.1.2"
thiserror = "=2.0.21"
tokio = { version = "=1.54.1", features = ["rt", "rt-multi-thread"] }
tracing = "=0.1.44"
