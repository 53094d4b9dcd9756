[package]
name = "cw20_bank"
version = "0.1.0"
edition = "2021"
publish = false

[dependencies]
cosmwasm-schema = "*"
cosmwasm-std = "*"
cw2 = "*"
cw20 = "*"
cw-storage-plus = "*"
