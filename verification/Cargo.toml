[package]
name = "assh"
version = "0.1.0"
edition = "2021"
publish = false

[dependencies]
aes = "=0.9.3"
ctr = "=0.10.1"
rand = "=0.8.8"
sha2 = "=0.11.0"
signature = "=2.2.0"
ssh-key = { version = "=0.6.7", features = ["ed25519"] }
x25519-dalek = { version = "=3.0.0", features = ["static_secrets"] }
