[package]
name = "authentik_nft"
version = "0.1.0"
edition = "2021"
publish = false

[dependencies]
solana-program = "2"
thiserror = "1"
num-derive = "0.4"
num-traits = "0.2"

[dev-dependencies]
borsh = "1"
