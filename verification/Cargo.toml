[package]
name = "container_orchestrator"
version = "0.1.0"
edition = "2021"
publish = false

[dependencies]
anyhow = "*"
containerd-client = "*"
dotenv = "*"
oci-spec = "*"
prost-types = "*"
serde_json = "*"
tokio = { version = "*", features = ["rt-multi-thread", "macros"] }
tonic = "*"
tracing = "*"
tracing-subscriber = { version = "*", features = ["env-filter"] }
