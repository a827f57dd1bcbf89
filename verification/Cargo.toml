[package]
name = "rakurai_programs"
version = "0.1.0"
edition = "2021"
publish = false

[dependencies]
solana-program = "2"
solana-sdk = "2"
solana-vote-interface = "2"
bincode = "1"
bs58 = "0.5"
clap = { version = "4", features = ["derive"] }
colored = "2"
shellexpand = "3"
