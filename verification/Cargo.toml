[package]
name = "gateway"
version = "0.1.0"
edition = "2021"
publish = false

[dependencies]
anchor-lang = "0.30.1"
anchor-spl = { version = "0.30.1", default-features = false, features = ["associated_token", "token"] }
solana-program = "1.18"
spl-associated-token-account = { version = "3", features = ["no-entrypoint"] }

[dev-dependencies]
libsecp256k1 = "0.6"
