[package]
name = "cruiser"
version = "0.1.0"
edition = "2021"
publish = false

[dependencies]
solana-program = "=5.1.0"
borsh = "*"
