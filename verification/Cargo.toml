[package]
name = "veilvault"
version = "0.1.0"
edition = "2021"
publish = false

[dependencies]
anchor-lang = "=0.32.1"
anchor-spl = { version = "=0.32.1", default-features = false, features = ["token", "token_2022"] }
pyth-solana-receiver-sdk = "=0.3.1"
bytemuck = "1"
