[package]
name = "shielded_proofs"
version = "0.1.0"
edition = "2021"
publish = false

[dependencies]
decaf377 = "*"
poseidon377 = "*"
