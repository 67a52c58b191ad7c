[package]
name = "owned_slice"
version = "0.1.0"
edition = "2021"
publish = false

[dependencies]
num = { version = "0.4", default-features = false }
num-traits = "0.2"
