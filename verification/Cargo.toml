[package]
name = "redletters_auth"
version = "0.1.0"
edition = "2021"
publish = false

[dependencies]
keyring = { version = "=3.6.3", default-features = false }
dirs = "=7.0.0"
serde = { version = "=1.0.229", features = ["derive"] }
thiserror = "=2.0.21"
