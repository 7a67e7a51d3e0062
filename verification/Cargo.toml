[package]
name = "synft"
version = "0.1.0"
edition = "2021"
publish = false

[dependencies]
anchor-lang = { version = "=1.2.2", features = ["init-if-needed"] }
anchor-spl = { version = "=1.2.2", default-features = false, features = ["token", "metadata", "solana-v3"] }
mpl-token-metadata = "=5.1.2-alpha.2"
solana-program = "=5.2.0"
spl-token = { version = "=9.0.0", default-features = false, features = ["no-entrypoint"] }
