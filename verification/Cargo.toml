[package]
name = "mattercrypt"
version = "0.1.0"
edition = "2021"
publish = false

[dependencies]
async-std = "1.5"
colored = "1.9"
dialoguer = "0.5"
dirs = "2.0"
gpgme = "0.9"
keyring = "0.8"
serde = { version = "1.0", features = ["derive"] }
serde_json = "1.0"
structopt = "0.3"
surf = "1.0"
thiserror = "1.0"
