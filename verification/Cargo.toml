[package]
name = "encrypted_ixs"
version = "0.1.0"
edition = "2021"
publish = false

[dependencies]
arcis = "*"
