[package]
name = "toc"
version = "0.1.0"
edition = "2021"
publish = false

[dependencies]
rust-argon2 = "1.0"
chacha20poly1305 = "0.10"
rand = "0.8"
levenshtein = "1"
anyhow = "1"
rouille = "3"
age = "*"
askama = "*"
chrono = "0.4"
clap = { version = "4", features = ["derive"] }
dirs = "*"
serde = { version = "1", features = ["derive"] }
serde_json = "1"
streaming-zip = "*"
tar = "0.4"
toml = "*"
ureq = "2"

[dev-dependencies]
bip39 = { version = "2", default-features = false }
