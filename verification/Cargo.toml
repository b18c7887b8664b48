[package]
name = "morty_steam_auth"
version = "0.3.0"
edition = "2021"
publish = false

[dependencies]
aes-gcm = "=0.10.3"
argon2 = "=0.5.3"
base64 = "=0.22.1"
directories = "=6.0.0"
egui = { version = "0.32", default-features = false, features = ["default_fonts"] }
egui_extras = { version = "0.32", default-features = false }
getrandom = "=0.3.4"
hmac = "=0.12.1"
regex = "=1.13.1"
reqwest = { version = "=0.12.28", default-features = false, features = ["blocking", "json", "rustls-tls"] }
scraper = "=0.23.1"
serde = { version = "=1.0.229", features = ["derive"] }
serde_json = "=1.0.154"
sha1 = "=0.10.7"
steamguard = "=0.18.4"
walkdir = "=2.5.0"
zeroize = "=1.9.1"
