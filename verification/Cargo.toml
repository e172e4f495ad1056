[package]
name = "caster"
version = "0.1.0"
edition = "2021"
publish = false

[dependencies]
once_cell = "1"
pyo3 = "0.20"
threadpool = "1"
