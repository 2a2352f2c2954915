[package]
name = "sage"
version = "0.1.0"
edition = "2021"
publish = false

[dependencies]
aes-gcm = "=0.10.3"
argon2 = "=0.5.3"
bincode = "=1.3.3"
bip39 = "=2.2.2"
chia-bls = "=0.53.0"
chia-sdk-utils = "=0.37.1"
chia-sha2 = "=0.53.0"
hex = "=0.4.3"
rand = "=0.8.8"
rand_chacha = "=0.3.1"
serde = { version = "=1.0.229", features = ["derive"] }
serde_with = "=3.24.0"
sqlx = { version = "=0.8.6", default-features = false, features = ["sqlite", "runtime-tokio"] }
thiserror = "=1.0.69"
