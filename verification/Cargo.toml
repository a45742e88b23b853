[package]
name = "cdecl_model"
version = "0.1.0"
edition = "2021"
publish = false

[dependencies]
clang = { version = "2", features = ["runtime"] }
tap = "1"
