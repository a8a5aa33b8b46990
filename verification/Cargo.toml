[package]
name = "riot_switcher"
version = "0.1.0"
edition = "2021"
publish = false

[dependencies]
aes-gcm = "0.10"
anyhow = "1"
base64 = "0.22"
crossterm = "0.28"
native-tls = "0.2"
pbkdf2 = "0.12"
rand = "0.8"
ratatui = "0.29"
rfd = "0.15"
rusqlite = { version = "0.32", features = ["bundled"] }
serde = { version = "1", features = ["derive"] }
serde_json = "1"
sha2 = "0.10"
ureq = { version = "2", features = ["native-tls"] }
