[package]
name = "coin_paths"
version = "0.1.0"
edition = "2021"
publish = false

[dependencies]
dirs = "*"
cryptonote-config = "*"
