[package]
name = "luna_distributor"
version = "0.1.0"
edition = "2021"
publish = false

[dependencies]
cosmwasm-std = "0.16"
cw-storage-plus = "0.8"
cw2 = "0.8"
terra-cosmwasm = "2"
schemars = "0.8"
serde = { version = "1", features = ["derive"] }
thiserror = "1"
