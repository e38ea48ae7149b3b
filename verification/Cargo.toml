[package]
name = "opbnb_quantum"
version = "0.1.0"
edition = "2021"
publish = false

[dependencies]
aes-gcm = "0.10"
anyhow = "1"
argon2 = "0.5"
dirs = "5"
hex = "0.4"
hkdf = "0.12"
pqcrypto-dilithium = "*"
pqcrypto-kyber = "*"
pqcrypto-ntru = "*"
pqcrypto-traits = "*"
rand = "0.8"
rpassword = "7"
secrecy = "0.8"
serde = { version = "1", features = ["derive"] }
serde_json = "1"
sha2 = "0.10"
zeroize = "1"
