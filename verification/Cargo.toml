[package]
name = "consensus_core"
version = "0.1.0"
edition = "2021"
publish = false

[dependencies]
schnorrkel = "*"
blake2-rfc = "*"
ed25519-dalek = "*"
