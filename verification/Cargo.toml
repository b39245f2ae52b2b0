[package]
name = "enclave_relay"
version = "0.1.0"
edition = "2021"
publish = false

[dependencies]
anyhow = "1"
axum = "0.7"
axum-server = { version = "0.7", features = ["tls-rustls"] }
base64 = "0.22"
chacha20poly1305 = "0.10"
rand_core = { version = "0.6", features = ["getrandom"] }
rcgen = "0.14"
serde = { version = "1", features = ["derive"] }
serde_json = "1"
tokio = { version = "1", features = ["rt-multi-thread", "macros", "net", "io-util"] }
tokio-vsock = "0.7"
