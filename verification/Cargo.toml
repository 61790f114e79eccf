[package]
name = "neon_bencode"
version = "0.1.0"
edition = "2021"
publish = false

[dependencies]
bip_bencode = "*"
neon = "*"
