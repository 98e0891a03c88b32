[package]
name = "catscope_edge_generator"
version = "0.1.0"
edition = "2021"
publish = false

[dependencies]
solana-sdk = "2.2"
spl-token = "7"
borsh = { version = "1", features = ["derive"] }
