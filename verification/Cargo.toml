[package]
name = "secureenc"
version = "0.1.0"
edition = "2021"
publish = false

[dependencies]
aes-gcm = "0.10"
argon2 = "0.5"
chacha20poly1305 = "0.10"
rand = "0.8"
rand_chacha = "0.9"
rand_core = "0.9"
sha2 = "0.10"
clap = "4"
rpassword = "7"
