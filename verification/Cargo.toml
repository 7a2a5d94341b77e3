[package]
name = "rusty_store"
version = "0.1.0"
edition = "2021"
publish = false

[dependencies]
ron = "*"
dirs = "*"
