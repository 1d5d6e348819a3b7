[package]
name = "folkers_core"
version = "0.1.0"
edition = "2021"
publish = false

[dependencies]
argon2 = "0.5"
base64 = "0.22"
ed25519-dalek = { version = "2", features = ["rand_core"] }
hex = "0.4"
jsonwebtoken = "9"
rand_core = { version = "0.6", features = ["getrandom"] }
sha2 = "0.10"
serde = { version = "1", features = ["derive"] }
serde_json = "1"
axum = { version = "0.8", features = ["multipart"] }
tokio = { version = "1", features = ["rt-multi-thread", "net", "fs", "io-util", "macros"] }
