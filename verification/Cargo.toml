[package]
name = "rbuild"
version = "0.1.0"
edition = "2021"
publish = false

[dependencies]
base64 = "0.13"
lazy_static = "1.4"
