[package]
name = "py-polars"
version = "0.1.0"
edition = "2021"
publish = false

[dependencies]
polars = { version = "=0.55.2", default-features = false, features = ["dtype-date", "dtype-datetime", "dtype-duration", "dtype-time"] }
pyo3 = "=0.30.1"
thiserror = "=2.0.21"
