[package]
name = "nomad_signature"
version = "0.1.0"
edition = "2021"
publish = false

[dependencies]
hex = "0.4"
k256 = "0.13"
elliptic-curve = "0.13"
ethers-core = "2"
