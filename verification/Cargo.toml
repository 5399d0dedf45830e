[package]
name = "tonic_prometheus_layer"
version = "0.1.0"
edition = "2021"
publish = false

[dependencies]
once_cell = "1"
pin-project = "1"
prometheus = { version = "0.13", default-features = false }
thiserror = "1"
tonic = { version = "0.12", default-features = false, features = ["codegen"] }
tower = { version = "0.4", default-features = false }
