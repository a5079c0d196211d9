[package]
name = "luanti"
version = "0.1.0"
edition = "2021"
publish = false

[dependencies]
base64 = "0.22"
flate2 = "1"
zstd = "0.13"
num-bigint = "0.4"
rand = "0.8"
sha1 = "0.10"
sha2 = "0.10"
rusqlite = { version = "0.31", features = ["bundled"] }
tokio = { version = "1", features = ["rt-multi-thread", "macros", "net"] }
tokio-postgres = "0.7"
log = "0.4"
env_logger = "0.11"
thiserror = "1"
anyhow = "1"
