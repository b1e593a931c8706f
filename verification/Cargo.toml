[package]
name = "playground"
version = "0.1.0"
edition = "2021"
publish = false

[dependencies]
serde = { version = "=1.0.229", features = ["derive"] }
serde_json = "=1.0.151"
serde_yaml = "=0.8.26"
json-patch = "=0.2.7"
log = "=0.4.34"
kube = { version = "=0.51.0", default-features = false, features = ["rustls-tls", "jsonpatch"] }
k8s-openapi = { version = "=0.11.0", default-features = false, features = ["v1_20"] }
