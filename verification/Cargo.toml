[package]
name = "secure_admin"
version = "0.1.0"
edition = "2021"
publish = false

[dependencies]
cosmwasm-schema = "1.5"
cosmwasm-std = "1.5"
cw-storage-plus = "1.2"
schemars = "0.8"
thiserror = "1.0"
