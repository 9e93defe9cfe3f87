[package]
name = "hyperplane"
version = "0.1.0"
edition = "2021"
publish = false

[dependencies]
anchor-lang = "=1.2.1"
anchor-spl = { version = "=1.2.1", default-features = false, features = ["solana-v3", "token", "token_2022", "associated_token"] }
anyhow = "=1.0.104"
spl-token = "=9.0.0"
tracing = "=0.1.44"
