[package]
name = "secure_link"
version = "0.1.0"
edition = "2021"
publish = false

[dependencies]
anyhow = "1"
rsa = "0.9"
rand = "0.8"
