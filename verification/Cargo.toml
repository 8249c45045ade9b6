[package]
name = "clob_harness"
version = "0.1.0"
edition = "2021"
publish = false

[dependencies]
anchor-lang = "0.29.0"
sha2 = "0.10"
solana-program = "1.17"
solana-sdk = "1.17"
spl-associated-token-account = { version = "2", features = ["no-entrypoint"] }
spl-token = { version = "4", features = ["no-entrypoint"] }
