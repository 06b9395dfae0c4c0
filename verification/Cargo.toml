[package]
name = "suitdrop"
version = "0.1.0"
edition = "2021"
publish = false

[dependencies]
sha2 = "0.10"
hex = "0.4"
cosmwasm-std = "1"
cosmwasm-schema = "1"
cw2 = "1"
cw20 = "1"
cw721-base = "0.18"
cw-utils = "1"
cw-storage-plus = "1"
serde = { version = "1", features = ["derive"] }
schemars = "0.8"
thiserror = "1"
