[package]
name = "opaque_pake"
version = "0.1.0"
edition = "2021"
publish = false

[dependencies]
opaque-ke = { version = "4", features = ["argon2"] }
argon2 = "0.5"
bincode = "1"
rand = "0.8"
serde = "1"
sha2 = "0.10"
