[package]
name = "pygrab_ll"
version = "0.1.0"
edition = "2021"
publish = false

[dependencies]
brotli = "*"
flate2 = "*"
pyo3 = { version = "*", features = ["extension-module"] }
reqwest = { version = "*", default-features = false, features = ["blocking", "json"] }
serde_json = "*"
tokio = { version = "*", features = ["rt-multi-thread"] }
