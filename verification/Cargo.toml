[package]
name = "vmc_device"
version = "0.1.0"
edition = "2021"
publish = false

[dependencies]
anyhow = "*"
glam = "*"
serde = { version = "*", features = ["derive"] }
string_cache = "*"
