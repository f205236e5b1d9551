[package]
name = "trustchain_backend"
version = "0.1.0"
edition = "2021"
publish = false

[dependencies]
bincode = "1.3"
candid = "0.10"
futures = "0.3"
getrandom = { version = "0.2", features = ["custom"] }
ic-cdk = "0.13"
ic-cdk-macros = "0.13"
serde = { version = "1", features = ["derive"] }
serde_json = "1"
