[package]
name = "rataria"
version = "0.1.0"
edition = "2021"
publish = false

[dependencies]
rusqlite = { version = "0.32", features = ["bundled-sqlcipher"] }
chrono = "0.4"
uuid = { version = "1", features = ["v4"] }
serde = { version = "1", features = ["derive"] }
serde_json = "1"
argon2 = "0.5"
rand_core = { version = "0.6", features = ["getrandom"] }
zeroize = "1"
dirs = "5"
ratatui = "0.29"
crossterm = "0.28"
thiserror = "1"
