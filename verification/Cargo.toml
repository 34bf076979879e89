[package]
name = "ghost_orders"
version = "0.1.0"
edition = "2021"
publish = false

[dependencies]
anchor-lang = "=1.2.1"
anchor-spl = { version = "=1.2.1", default-features = false, features = ["solana-v3", "token"] }
bincode = "=1.3.3"
blake3 = "=1.8.7"
ephemeral-rollups-sdk = { version = "=0.17.3", features = ["anchor"] }
magicblock-magic-program-api = "=1.1.1"
solana-program = "=5.1.0"
