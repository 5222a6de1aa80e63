[package]
name = "lite_bridge"
version = "0.1.0"
edition = "2021"
publish = false

[dependencies]
bs58 = "=0.5.1"
bincode = "=1.3.3"
solana-sdk = "=5.0.0"
solana-version = "=3.1.14"
