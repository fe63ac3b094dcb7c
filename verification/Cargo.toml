[package]
name = "kuber"
version = "0.1.0"
edition = "2021"
publish = false

[dependencies]
chrono = "0.4"
clap = { version = "4", features = ["derive"] }
dialoguer = "0.11"
futures = "0.3"
k8s-openapi = { version = "0.20", features = ["latest"] }
kube = "0.87"
serde_json = "1"
tokio = { version = "1", features = ["macros", "rt-multi-thread"] }
tui = "0.19"
