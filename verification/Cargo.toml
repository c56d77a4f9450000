[package]
name = "identity_basic"
version = "0.1.0"
edition = "2021"
publish = false

[dependencies]
argon2 = "0.5"
base64 = "0.22"
bcrypt = "*"
metrics = "0.24"
password-hash = "0.5"
serde = { version = "1", features = ["derive"] }
serde_json = "1"
time = { version = "0.3", features = ["parsing", "std"] }
tracing = "0.1"
