[package]
name = "airdrop_pool"
version = "0.1.0"
edition = "2021"
publish = false

[dependencies]
spl-token = { version = "=3.5.0", features = ["no-entrypoint"] }
metaplex-token-metadata = { version = "=0.0.1", features = ["no-entrypoint"] }
solana-program = "~1.10.33"
