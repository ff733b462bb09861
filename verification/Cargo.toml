[package]
name = "normal_contracts"
version = "0.1.0"
edition = "2021"
publish = false

[dependencies]
soroban-sdk = "=25.3.2"
soroban-fixed-point-math = "=1.5.0"
sep-40-oracle = "=1.4.0"

[dev-dependencies]
soroban-sdk = { version = "=25.3.2", features = ["testutils"] }
