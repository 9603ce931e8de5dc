[package]
name = "grand_bazaar"
version = "0.1.0"
edition = "2021"
publish = false

[dependencies]
spl-token = "=9.0.0"
solana-pubkey = { version = "=3.0.0", features = ["curve25519"] }
