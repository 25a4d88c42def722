[package]
name = "sec_auth"
version = "0.1.0"
edition = "2021"
publish = false

[dependencies]
hmac = "=0.12.1"
sha2 = "=0.10.9"
ring = "=0.16.20"
rand = "=0.7.3"
hex = "=0.4.3"
dryoc = "0.7"
serde = { version = "=1.0.229", features = ["derive"] }
serde_json = "=1.0.154"
lettre = { version = "=0.10.4", default-features = false, features = ["smtp-transport", "builder", "rustls-tls"] }
dotenv = "=0.15.0"
read_input = "=0.8.6"
strum = "=0.24.1"
strum_macros = "=0.24.3"
yubikey = { version = "0.8", features = ["untested"] }
