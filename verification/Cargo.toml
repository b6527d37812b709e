[package]
name = "backendr"
version = "0.1.0"
edition = "2021"
publish = false

[dependencies]
sha2 = "=0.10.9"
hmac = "=0.12.1"
aes = "=0.8.4"
aes-gcm = "=0.10.3"
cbc = { version = "=0.1.2", features = ["block-padding", "alloc"] }
cipher = { version = "=0.4.4", features = ["block-padding", "alloc"] }
base64 = "=0.22.1"
uuid = { version = "=1.29.0", features = ["v4"] }
rand = "=0.8.8"
chrono = "=0.4.45"
serde = { version = "=1.0.229", features = ["derive"] }
serde_json = "=1.0.154"
jsonwebtoken = "=9.3.1"
bcrypt = "*"
dotenvy = "*"
lettre = { version = "*", default-features = false, features = ["builder", "smtp-transport", "rustls-tls"] }
sysinfo = { version = "*", default-features = false, features = ["system"] }
