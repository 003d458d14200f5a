[package]
name = "rust_udp_utility"
version = "0.1.0"
edition = "2021"
publish = false

[dependencies]
colored = "*"
