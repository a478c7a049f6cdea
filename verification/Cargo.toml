[package]
name = "hpke"
version = "0.1.0"
edition = "2021"
publish = false

[dependencies]
rand = "0.8"
x25519-dalek = "2"
chacha20poly1305 = "0.10"
hkdf = "0.12"
sha2 = "0.10"
