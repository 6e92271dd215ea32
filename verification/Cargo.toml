[package]
name = "cedar_py"
version = "0.1.0"
edition = "2021"
publish = false

[dependencies]
cedar-policy = "4"
pyo3 = "*"
