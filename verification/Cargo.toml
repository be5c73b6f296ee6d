[package]
name = "solana_signature_verification"
version = "0.1.0"
edition = "2021"
publish = false

[dependencies]
anchor-lang = "=0.30.1"
switchboard-solana = "=0.30.4"
