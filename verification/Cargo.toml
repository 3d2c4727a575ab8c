[package]
name = "blackbeard"
version = "0.1.0"
edition = "2021"
publish = false

[dependencies]
seahash = "=4.1.0"
crossbeam-channel = "=0.5.17"
laminar = "=0.5.0"
rand = "=0.8.8"
rand_xoshiro = "=0.6.0"

[dev-dependencies]
binary-stream = "=10.0.0"
