[package]
name = "inspector_stack"
version = "0.1.0"
edition = "2021"
publish = false

[dependencies]
alloy-primitives = "0.7"
revm = { version = "8.0", default-features = false, features = ["std"] }
