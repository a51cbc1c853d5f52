[package]
name = "raffle_vault"
version = "0.1.0"
edition = "2021"
publish = false

[dependencies]
anchor-lang = "0.25.0"
anchor-spl = "0.25.0"
