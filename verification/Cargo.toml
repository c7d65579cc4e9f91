[package]
name = "conquer_once"
version = "0.1.0"
edition = "2021"
publish = false

[dependencies]
conquer-util = { version = "0.3", features = ["back-off"] }
