[package]
name = "db3"
version = "0.1.0"
edition = "2021"
publish = false

[dependencies]
ed25519-dalek = "*"
k256 = "*"
sha2 = "*"
