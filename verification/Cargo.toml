[package]
name = "cross_chain_token_bridge"
version = "0.1.0"
edition = "2021"
publish = false

[dependencies]
hex = "=0.4.3"
num-bigint = "=0.4.8"
bs58 = "=0.5.1"
serde = { version = "=1.0.229", features = ["derive"] }
serde_json = "=1.0.151"
groth16-solana = "=0.2.0"
light-sdk = { version = "=0.25.0", features = ["keccak"] }
solana-pubkey = "=4.4.0"
