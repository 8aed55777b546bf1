[package]
name = "dao_vault"
version = "0.1.0"
edition = "2021"
publish = false

[dependencies]
solana-maths = "=0.1.2"
solana-program = "=1.18.26"
port-variable-rate-lending-instructions = "=0.3.0"
boolinator = "=2.4.0"
bitflags = "=1.3.2"
anchor-lang = "=0.30.1"
anchor-spl = { version = "=0.30.1", default-features = false, features = ["token"] }
