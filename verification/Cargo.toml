[package]
name = "yaml_ser"
version = "0.1.0"
edition = "2021"
publish = false

[dependencies]
linked-hash-map = "0.3"
serde = "=0.9.15"
yaml-rust = { version = "=0.3.5", features = ["preserve_order"] }
