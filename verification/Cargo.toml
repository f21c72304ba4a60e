[package]
name = "bunku"
version = "0.1.0"
edition = "2021"
publish = false

[dependencies]
clap = { version = "4", features = ["derive"] }
indexmap = { version = "2", features = ["serde"] }
k8s-openapi = { version = "*", features = ["latest"] }
serde = { version = "1", features = ["derive"] }
serde_json = "1"
thiserror = "*"
toml = "*"
