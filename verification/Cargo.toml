[package]
name = "hot_or_not_backend"
version = "0.1.0"
edition = "2021"
publish = false

[dependencies]
candid = "0.10"
ciborium = "0.2"
ic-cdk = "0.16"
ic-cdk-macros = "0.16"
ic-cdk-timers = "0.10"
ic-stable-structures = "0.6"
serde = { version = "1", features = ["derive"] }
