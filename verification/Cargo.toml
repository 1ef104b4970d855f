[package]
name = "ossuary"
version = "0.1.0"
edition = "2021"
publish = false

[dependencies]
chacha20-poly1305-aead = "0.1"
x25519-dalek = "0.5"
ed25519-dalek = "=1.0.0-pre.1"
rand = "0.6"
