[package]
name = "postbox"
version = "0.1.0"
edition = "2021"
publish = false

[dependencies]
base64 = "*"
rust-crypto = "0.2"
getopts = "*"
