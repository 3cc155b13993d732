[package]
name = "method_override"
version = "0.1.0"
edition = "2021"
publish = false

[dependencies]
futures = "0.3"
warp = "0.3"
