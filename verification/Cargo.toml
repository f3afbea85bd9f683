[package]
name = "axon_features"
version = "0.1.0"
edition = "2021"
publish = false

[dependencies]
polars = { version = "*", default-features = false, features = ["lazy", "temporal"] }
chrono = "*"
serde_json = "*"
rhai = "*"
