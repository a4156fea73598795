[package]
name = "brz_launcher"
version = "3.3.1"
edition = "2021"
publish = false

[dependencies]
pyo3 = "=0.20.3"
pkg-version = "*"
