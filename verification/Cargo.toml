[package]
name = "celeritas_ral"
version = "0.1.0"
edition = "2021"
publish = false

[dependencies]
heapless = "=0.8.0"
serde = { version = "*", features = ["derive"] }
serde_json = "*"
glam = { version = "*", features = ["serde"] }
