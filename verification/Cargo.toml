[package]
name = "cpp_build"
version = "0.5.9"
edition = "2021"
publish = false

[dependencies]
cc = "1"
lazy_static = "1"
