[package]
name = "landingpage"
version = "0.1.0"
edition = "2021"
publish = false

[dependencies]
kube = { version = "=3.1.0", default-features = false, features = ["client", "rustls-tls", "ring"] }
k8s-openapi = { version = "=0.27.1", features = ["latest"] }
serde = { version = "*", features = ["derive"] }
serde_yaml = "*"
tokio = { version = "*", features = ["full"] }
axum = "*"
axum-oidc = "*"
minijinja = "*"
tower = { version = "*", features = ["util"] }
tower-http = { version = "*", features = ["fs"] }
tower-sessions = "*"
thiserror = "*"
tracing = "*"
