[package]
name = "amp_composer"
version = "0.1.0"
edition = "2021"
publish = false

[dependencies]
sha2 = "=0.11.0"
kube = { version = "=3.1.0", features = ["runtime", "client", "derive"] }
k8s-openapi = { version = "=0.27.1", features = ["latest"] }
tokio = { version = "=1.53.2", features = ["macros", "rt-multi-thread", "time", "sync"] }
serde = { version = "=1.0.229", features = ["derive"] }
serde_json = "=1.0.151"
thiserror = "=2.0.21"
anyhow = "=1.0.104"
url = "=2.5.8"
