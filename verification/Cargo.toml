[package]
name = "ringct"
version = "0.1.0"
edition = "2021"
publish = false

[dependencies]
curve25519-dalek = "3.2"
curve25519-dalek-ng = "4"
bulletproofs = "4"
merlin = "3"
sha3 = "0.9"
rust-crypto = "0.2"
rand = "0.8"
