[package]
name = "py3_hessian2_rsimpl"
version = "0.1.0"
edition = "2021"
publish = false

[dependencies]
pyo3 = "*"
