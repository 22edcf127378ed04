[package]
name = "token_ledger"
version = "0.1.0"
edition = "2021"
publish = false

[dependencies]
candid = "*"
ic-cdk = "*"
ic-http-certification = "*"
ic_principal = "*"
serde = { version = "*", features = ["derive"] }
serde_bytes = "*"
serde_json = "*"
