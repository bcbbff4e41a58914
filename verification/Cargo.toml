[package]
name = "privacy_crypto"
version = "0.1.0"
edition = "2021"
publish = false

[dependencies]
curve25519-dalek = "=4.1.3"
sha3 = "=0.10.9"
serde = { version = "=1.0.229", features = ["derive"] }
bytemuck = "=1.25.2"
rand_core = "=0.6.4"
anchor-lang = "=0.29.0"

[dev-dependencies]
borsh = "=1.8.1"
rand = "=0.8.8"
