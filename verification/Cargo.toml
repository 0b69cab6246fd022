[package]
name = "dev_cli"
version = "0.1.0"
edition = "2021"
publish = false

[dependencies]
url = "=2.5.8"
serde_json = "=1.0.154"
json-patch = "=4.2.0"
serde = { version = "=1.0.229", features = ["derive"] }
serde_yaml = "=0.9.34"
clap = { version = "=4.6.7", features = ["derive"] }
clap_complete = "=4.6.11"
kube = { version = "=5.0.0", features = ["client", "ws", "jsonpatch"] }
k8s-openapi = { version = "=0.29.0", features = ["latest"] }
tokio = { version = "=1.54.1", features = ["full"] }
tokio-util = { version = "=0.7.20", features = ["io"] }
futures = "=0.3.34"
crossterm = "=0.29.0"
hyper = { version = "=1.12.0", features = ["client", "http1"] }
hyper-util = { version = "=0.1.21", features = ["tokio"] }
http = "=1.5.0"
http-body-util = "=0.1.5"
anyhow = "=1.0.104"
tracing = "=0.1.44"
tracing-subscriber = "=0.3.23"
