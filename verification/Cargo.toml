[package]
name = "lottery_core"
version = "0.1.0"
edition = "2021"

[dependencies]
rand = "0.8"
sha2 = "0.10"
candid = "0.10"
ic-cdk = "0.13"
serde = { version = "1", features = ["derive"] }
