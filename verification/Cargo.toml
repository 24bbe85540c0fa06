[package]
name = "kanoniv_plan"
version = "0.1.0"
edition = "2021"
publish = false

[dependencies]
serde_json = "1"
serde_yaml = "0.9"
sha2 = "0.10"
serde = { version = "1", features = ["derive"] }
anyhow = "1"
colored = "2"
pyo3 = "0.22"
