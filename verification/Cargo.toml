[package]
name = "idalib"
version = "0.1.0"
edition = "2021"
publish = false

[dependencies]
cxx = "1.0"
