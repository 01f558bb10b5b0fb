[package]
name = "neptune_auth"
version = "0.1.0"
edition = "2021"
publish = false

[dependencies]
cosmwasm-std = "*"
thiserror = "*"
