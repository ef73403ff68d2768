[package]
name = "stealth_maker"
version = "0.1.0"
edition = "2021"
publish = false

[dependencies]
spl-token = "*"
spl-associated-token-account = "*"
solana-program-pack = "*"
solana-pubkey = "*"
