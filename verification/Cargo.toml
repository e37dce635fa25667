[package]
name = "launchpad_program"
version = "0.1.0"
edition = "2021"
publish = false

[dependencies]
anchor-lang = "=0.31.2"
mpl-core = { version = "=0.12.1", features = ["anchor"], default-features = false }
solana-program = "=5.1.0"
