[package]
name = "cdh_storage"
version = "0.1.0"
edition = "2021"
publish = false

[dependencies]
anyhow = "1"
async-trait = "0.1"
hex = "0.4"
libc = "0.2"
nix = { version = "0.29", features = ["mount"] }
serde = { version = "1", features = ["derive"] }
serde_json = "1"
sha2 = "0.10"
strum = { version = "0.26", features = ["derive"] }
thiserror = "2"
tokio = { version = "1", features = ["fs", "rt", "time"] }
tracing = "0.1"
uuid = { version = "1", features = ["v4"] }
zeroize = "1"
