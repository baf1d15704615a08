[package]
name = "fund_contract"
version = "0.1.0"
edition = "2021"
publish = false

[dependencies]
pyth-sdk-solana = "0.10"
solana-program = "1"

[dev-dependencies]
spl-token = { version = "4", default-features = false, features = ["no-entrypoint"] }
spl-associated-token-account = { version = "2", default-features = false, features = ["no-entrypoint"] }
bytemuck = "1"
