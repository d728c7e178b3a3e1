[package]
name = "sealtask"
version = "0.1.0"
edition = "2021"
publish = false

[dependencies]
base64 = "=0.22.1"
sha2 = "=0.10.9"
uuid = { version = "=1.29.0", features = ["serde"] }
zeroize = "=1.9.1"
libc = "=0.2.191"
serde = { version = "1", features = ["derive"] }
serde_json = "1"
chrono = { version = "0.4", default-features = false, features = ["std", "serde"] }
