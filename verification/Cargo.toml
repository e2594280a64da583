[package]
name = "pokearch"
version = "0.1.0"
edition = "2021"
publish = false

[dependencies]
andromeda-non-fungible-tokens = "*"
cosmwasm-schema = "1"
cosmwasm-std = "1"
cw-storage-plus = "1"
cw2 = "1"
prost = "*"
schemars = "*"
serde = { version = "1", features = ["derive"] }
thiserror = "1"
