[package]
name = "swap_coordinator"
version = "0.1.0"
edition = "2021"
publish = false

[dependencies]
sha2 = "=0.10.9"
hex = "=0.4.3"
ic-cdk = "=0.20.3"
ic-cdk-macros = "=0.20.3"
candid = "=0.10.37"
icrc-ledger-types = "=0.2.0"
serde = "=1.0.229"
serde_json = "=1.0.151"
scopeguard = "=1.2.0"
