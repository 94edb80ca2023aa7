[package]
name = "nexmark_events"
version = "0.1.0"
edition = "2021"
publish = false

[dependencies]
nexmark = "*"
pyo3 = "*"
serde = { version = "*", features = ["derive"] }
serde_json = { version = "*", features = ["preserve_order"] }
