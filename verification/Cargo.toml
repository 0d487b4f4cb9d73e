[package]
name = "stellar_k8s"
version = "0.1.0"
edition = "2021"
publish = false

[dependencies]
chrono = { version = "0.4", features = ["serde"] }
clap = { version = "4", features = ["derive"] }
k8s-openapi = { version = "0.22", features = ["v1_28"] }
kube = { version = "0.94", default-features = false, features = ["client", "derive"] }
reqwest = { version = "0.12", default-features = false, features = ["json"] }
schemars = { version = "0.8", features = ["chrono"] }
serde = { version = "1", features = ["derive"] }
serde_json = "1"
thiserror = "1"
tokio = { version = "1", features = ["time", "macros", "rt-multi-thread"] }
tracing = "0.1"
