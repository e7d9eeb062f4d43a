[package]
name = "privilege_escalation_policy"
version = "0.1.0"
edition = "2021"
publish = false

[dependencies]
k8s-openapi = { version = "*", features = ["latest"] }
kubewarden-policy-sdk = "*"
serde = { version = "*", features = ["derive"] }
