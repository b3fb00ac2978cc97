[package]
name = "tokentrade"
version = "0.1.0"
edition = "2021"
publish = false

[dependencies]
solana-program = "=3.0.0"
spl-token = { version = "=9.0.0", features = ["no-entrypoint"] }
borsh = { version = "=1.8.1", features = ["derive"] }
