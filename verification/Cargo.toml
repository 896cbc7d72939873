[package]
name = "asset_exchange"
version = "0.1.0"
edition = "2021"
publish = false

[dependencies]
cosmwasm-std = "1.5"
cw-storage-plus = "1.2"
cw721 = "0.18"
osmosis-std = "0.22"
schemars = "0.8"
serde = { version = "1", features = ["derive"] }
