[package]
name = "ics721"
version = "0.1.0"
edition = "2021"
publish = false

[dependencies]
cosmwasm-schema = "1.5"
cosmwasm-std = { version = "1.5", features = ["stargate", "ibc3", "cosmwasm_1_2"] }
cw-storage-plus = "1.2"
cw-utils = "1.0"
cw2 = "1.1"
cw721 = "0.18"
schemars = "0.8"
serde = { version = "1.0", default-features = false, features = ["derive"] }
sha2 = "0.10"
