[package]
name = "blueshift_escrow"
version = "0.1.0"
edition = "2021"
publish = false

[dependencies]
pinocchio = { version = "=0.12.0", features = ["cpi"] }
pinocchio-token = "=0.8.0"
pinocchio-system = "=0.7.0"
pinocchio-associated-token-account = "=0.5.0"
solana-address = { version = "=2.9.0", features = ["curve25519"] }
solana-program-log = "=1.2.0"
anchor-lang = "=1.2.2"
anchor-spl = "=1.2.2"
