[package]
name = "smart_account"
version = "0.1.0"
edition = "2021"
publish = false

[dependencies]
cosmwasm-std = "1"
cosmwasm-schema = "1"
cw2 = "1"
cw-storage-plus = "1"
hex = "0.4"
sha2 = "0.10"

[dev-dependencies]
k256 = { version = "0.13", features = ["ecdsa"] }
