[package]
name = "vc4"
version = "0.1.0"
edition = "2021"
publish = false

[dependencies]
spin = "=0.5.2"
aarch64 = "=0.0.14"
bitmap-allocator = "=0.1.0"
