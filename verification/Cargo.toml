[package]
name = "monty_ffi"
version = "0.1.0"
edition = "2021"
publish = false

[dependencies]
monty = "=0.0.23"
monty-types = "=0.0.23"
postcard = { version = "=1.1.3", features = ["alloc"] }
serde_json = "=1.0.151"
