[package]
name = "delta_simple"
version = "0.1.0"
edition = "2021"
publish = false

[dependencies]
delta_kernel = { version = "=0.18.2", features = ["arrow", "default-engine-rustls", "internal-api"] }
serde_json = "=1.0.154"
url = "=2.5.8"

[dev-dependencies]
object_store = "=0.12.5"
