[package]
name = "cap-narrative-types"
version = "0.3.0"
edition = "2021"
publish = false

[dependencies]
indexmap = { version = "=2.14.2", features = ["serde"] }
schemars = { version = "=0.8.22", features = ["indexmap2"] }
serde = { version = "=1.0.229", features = ["derive"] }
serde_json = "=1.0.154"
serde_yaml = "=0.9.34"
