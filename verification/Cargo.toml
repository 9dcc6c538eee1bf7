[package]
name = "vanity_search"
version = "0.1.0"
edition = "2021"
publish = false

[dependencies]
solana-sdk = "*"
clap = "2"
num_cpus = "1"
