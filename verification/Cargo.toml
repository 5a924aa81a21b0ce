[package]
name = "ln"
version = "0.1.0"
edition = "2021"
publish = false

[dependencies]
image = { version = "=0.24.9", default-features = false, features = ["png"] }
rand = { version = "=0.8.8", features = ["small_rng"] }
const_soft_float = "=0.1.4"
rustc_apfloat = "=0.2.3"
