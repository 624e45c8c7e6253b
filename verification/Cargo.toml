[package]
name = "m3ua"
version = "1.0.0"
edition = "2021"
publish = false

[dependencies]
thiserror = "*"
pyo3 = "*"
