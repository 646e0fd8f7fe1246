[package]
name = "compliance_core"
version = "0.1.0"
edition = "2021"
publish = false

[dependencies]
solana-keccak-hasher = { version = "=3.1.0", features = ["sha3"] }
sha2 = "=0.10.9"

[dev-dependencies]
bs58 = "=0.5.1"
