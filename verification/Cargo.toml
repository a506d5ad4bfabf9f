[package]
name = "pixivarchive"
version = "0.1.0"
edition = "2021"
publish = false

[dependencies]
base64 = "0.22"
sha2 = "0.10"
chacha20poly1305 = "0.10"
rand = "0.9"
constant_time_eq = "0.3"
uuid = { version = "1", features = ["v7"] }
time = "0.3"
serde = { version = "1", features = ["derive"] }
serde_json = "1"
thiserror = "2"
tokio = { version = "1", features = ["full"] }
anyhow = "1"
libc = "0.2"
tracing = "0.1"
secrecy = "0.10"
async-trait = "0.1"
futures-util = "0.3"
argon2 = "0.5"
