[package]
name = "ft_balance_query"
version = "0.1.0"
edition = "2021"
publish = false

[dependencies]
near-sdk = "3.1.0"
serde_json = "1"
