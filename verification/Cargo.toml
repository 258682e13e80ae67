[package]
name = "rwa_sdk"
version = "0.1.0"
edition = "2021"
publish = false

[dependencies]
cosmrs = { version = "=0.22.0", features = ["rpc", "cosmwasm"] }

[dev-dependencies]
cw20 = "=2.0.0"
cosmwasm-std = "=2.3.5"
serde_json = "=1.0.151"
