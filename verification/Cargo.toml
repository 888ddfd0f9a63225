[package]
name = "svd_ols"
version = "0.1.0"
edition = "2021"
publish = false

[dependencies]
nalgebra = "=0.35.0"
safe_arch = "=1.2.0"
csv = "=1.4.0"
serde = { version = "=1.0.229", features = ["derive"] }
