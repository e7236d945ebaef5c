[package]
name = "wesl_sourcemap"
version = "0.1.0"
edition = "2021"
publish = false

[dependencies]
wgsl-parse = { version = "=0.3.2", features = ["wesl"] }
