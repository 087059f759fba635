[package]
name = "solana_escrow"
version = "0.1.0"
edition = "2021"
publish = false

[dependencies]
solana-program = "*"
anchor-lang = { version = "*", features = ["init-if-needed"] }
anchor-spl = "*"
