[package]
name = "stassh"
version = "0.1.0"
edition = "2021"
publish = false

[dependencies]
semver = "1"
sha2 = "0.10"
base64 = "0.22"
serde = { version = "1", features = ["derive"] }
serde_json = "1"
anyhow = "1"
aes-gcm = "0.10"
argon2 = "0.5"
rand = "0.8"
uuid = { version = "1", features = ["v4"] }
directories = "*"
rusqlite = { version = "*", features = ["bundled"] }
ureq = "3"
flate2 = "1"
tar = "0.4"
ratatui = "0.29"
crossterm = "0.28"
vt100 = "0.15"
tokio = { version = "1", features = ["rt-multi-thread", "macros", "sync", "time"] }
russh = "*"
