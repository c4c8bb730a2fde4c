[package]
name = "aiome"
version = "0.1.0"
edition = "2021"
publish = false

[dependencies]
regex = "1"
unicode-normalization = "0.1"
sha2 = "0.10"
chacha20poly1305 = "0.10"
base64 = "0.22"
rand = "0.8"
url = "2"
chrono = { version = "0.4", default-features = false, features = ["std", "clock"] }
uuid = { version = "1", features = ["v4"] }
libc = "0.2"
serde = { version = "1", features = ["derive"] }
serde_json = "1"
walkdir = "2"
colored = "2"
tokio = { version = "1", features = ["rt", "sync", "time", "macros"] }
trust-dns-resolver = "0.23"
reqwest = { version = "0.12", default-features = false, features = ["json"] }
