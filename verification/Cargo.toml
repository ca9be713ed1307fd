[package]
name = "rekthub"
version = "0.1.0"
edition = "2021"
publish = false

[dependencies]
anchor-lang = { version = "0.31", features = ["event-cpi", "init-if-needed"] }
anchor-spl = { version = "0.31" }
mpl-token-metadata = "5.1"
solana-system-interface = "1"
