[package]
name = "alliance_bindings"
version = "0.1.0"
edition = "2021"
publish = false

[dependencies]
chrono = { version = "0.4", default-features = false, features = ["std", "serde"] }
cosmwasm-schema = "1.5"
cosmwasm-std = "1.5"
serde = { version = "1", features = ["derive"] }
