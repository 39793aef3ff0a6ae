[package]
name = "lnpbp"
version = "0.1.0"
edition = "2021"
publish = false

[dependencies]
bitcoin = "*"
bech32 = "*"
deflate = "*"
inflate = "*"
strict_encoding = "1"
serde = "1"
