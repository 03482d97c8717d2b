[package]
name = "confidential_assets"
version = "0.1.0"
edition = "2021"
publish = false

[dependencies]
curve25519-dalek = { version = "4", features = ["rand_core", "digest"] }
curve25519-dalek-ng = "4"
bulletproofs = "4"
merlin = "3"
rand = "0.8"
rand_chacha = "0.3"
sha2 = "0.10"
sp-crypto-hashing = "*"
parity-scale-codec = { version = "3", features = ["derive"] }
thiserror = "1"
serde = { version = "1", features = ["derive"] }
serde_json = "1"
anyhow = "1"
hex = "0.4"
