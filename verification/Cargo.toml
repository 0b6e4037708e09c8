[package]
name = "osmosis_cw_pool"
version = "0.1.0"
edition = "2021"
publish = false

[dependencies]
cosmwasm-std = "=1.5.11"
cosmwasm-schema = "=1.5.11"
cw-storage-plus = "=1.2.0"
cw2 = "=1.1.2"
semver = "=1.0.28"
thiserror = "1"
white-whale-std = { version = "=1.2.6", features = ["osmosis"] }
