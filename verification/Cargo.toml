[package]
name = "http_response"
version = "0.1.0"
edition = "2021"
publish = false

[dependencies]
hyper = { version = "1", default-features = false }
pyo3 = "0.22"
