[package]
name = "omnyssh"
version = "0.1.0"
edition = "2021"
publish = false

[dependencies]
sha2 = "0.10"
vt100 = "0.15"
dirs = "5"
anyhow = "1"
crossterm = "0.28"
tokio = { version = "1", features = ["rt-multi-thread", "macros", "sync", "time", "fs"] }
serde = { version = "1", features = ["derive"] }
toml = "0.8"
clap = { version = "4", features = ["derive"] }
reqwest = { version = "0.12", default-features = false, features = ["json", "rustls-tls"] }
flate2 = "1"
tar = "0.4"
self-replace = "1"
semver = "1"
tracing = "0.1"
