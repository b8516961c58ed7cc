[package]
name = "vatan_pay"
version = "0.1.0"
edition = "2021"
publish = false

[dependencies]
soroban-sdk = "=21.7.7"

[dev-dependencies]
sha2 = "0.10"
