[package]
name = "sol_stablecoin"
version = "0.1.0"
edition = "2021"
publish = false

[dependencies]
anchor-lang = { version = "0.28", features = ["init-if-needed"] }
anchor-spl = "0.28"
pyth-sdk-solana = "*"
