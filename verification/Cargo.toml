[package]
name = "bounty_board"
version = "0.1.0"
edition = "2021"
publish = false

[dependencies]
ed25519-dalek = "2"
solana-program = "2"
spl-token = { version = "6", default-features = false, features = ["no-entrypoint"] }
