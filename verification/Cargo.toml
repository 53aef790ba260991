[package]
name = "swap_dispatch"
version = "0.1.0"
edition = "2021"
publish = false

[dependencies]
cosmwasm-schema = "2"
cosmwasm-std = "2"
cw-storage-plus = "2"
ethabi = "18"
schemars = "0.8"
serde = { version = "1", features = ["derive"] }
