[package]
name = "apdu_core"
version = "0.1.0"
edition = "2021"
publish = false

[dev-dependencies]
hex = "0.4"
