[package]
name = "ferrite"
version = "0.1.0"
edition = "2021"
publish = false

[dependencies]
async-std = { version = "1", features = ["unstable", "attributes"] }
async-macros = "2"
log = "0.4"
