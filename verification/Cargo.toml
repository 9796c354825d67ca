[package]
name = "rust_bench"
version = "0.1.0"
edition = "2021"
publish = false

[dependencies]
serde_json = "1"
simd-json = "*"
sonic-rs = "*"
