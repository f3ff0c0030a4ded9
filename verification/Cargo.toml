[package]
name = "market_settlement"
version = "0.1.0"
edition = "2021"
publish = false

[dependencies]
bigint = "4"
cosmwasm-bignumber = "1.0"
cosmwasm-std = "0.10"
cw20 = "0.2"
