[package]
name = "vanity_search"
version = "0.1.0"
edition = "2021"
publish = false

[dependencies]
bs58 = "*"
chrono = "*"
num_cpus = "*"
solana-sdk = "*"
