[package]
name = "sonotheia_rust"
version = "0.1.0"
edition = "2021"
publish = false

[dependencies]
rustfft = "6"
thiserror = "1"
pyo3 = "0.23"
numpy = "0.23"
