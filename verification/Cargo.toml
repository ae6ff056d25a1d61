[package]
name = "listing_engine"
version = "0.1.0"
edition = "2021"
publish = false

[dependencies]
cosmwasm-std = "=1.5.11"
cosmwasm-schema = "=1.5.11"
cw20 = "=1.1.2"
cw20-base = { version = "=1.1.2", features = ["library"] }
oraiswap = "=1.0.1"

[dev-dependencies]
cosmos-sdk-proto = "=0.27.0"
anybuf = "=1.0.0"
