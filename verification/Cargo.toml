[package]
name = "lightning_signer_core"
version = "0.1.0"
edition = "2021"
publish = false

[dependencies]
bitcoin = "=0.32.102"
bitcoin_hashes = "=1.2.0"
secp256k1 = { version = "=0.33.1", features = ["recovery"] }
bech32 = "=0.12.0"
hex = "=0.4.3"
serde = "=1.0.229"
serde_derive = "=1.0.229"
