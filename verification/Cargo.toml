[package]
name = "cw20_router"
version = "0.1.0"
edition = "2021"
publish = false

[dependencies]
cosmwasm-std = "1"
cw20-base = { version = "1", features = ["library"] }
cw20 = "1"
cw-utils = "1"
