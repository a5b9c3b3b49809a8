[package]
name = "verifier_program"
version = "0.1.0"
edition = "2021"
publish = false

[dependencies]
anchor-lang = "0.24"
solana-program = "1.9"
ark-ec = "0.3"
ark-ff = "0.3"
ark-std = "0.3"
