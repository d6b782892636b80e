[package]
name = "outfit_core"
version = "0.1.0"
edition = "2021"
publish = false

[dependencies]
outfit = { version = "=2.1.0", features = ["parallel"] }
rand = "=0.9.5"
