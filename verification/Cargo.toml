[package]
name = "liquid_staking"
version = "0.1.0"
edition = "2021"
publish = false

[dependencies]
cosmwasm-schema = "1.5"
cosmwasm-std = { version = "1.5", features = ["staking", "stargate", "cosmwasm_1_2"] }
cw-ownable = "0.5"
cw-storage-plus = "1.2"
cw2 = "1.1"
cw20 = "1.1"
cw20-base = { version = "1.1", features = ["library"] }
cw721 = "0.18"
cw721-base = { version = "0.18", features = ["library"] }
prost = "0.12"
schemars = "0.8"
serde = { version = "1.0", default-features = false, features = ["derive"] }
sha2 = "0.10"
