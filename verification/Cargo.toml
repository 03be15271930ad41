[package]
name = "madespace_core"
version = "0.1.0"
edition = "2021"
publish = false

[dependencies]
argon2 = "0.5"
base64 = "0.22"
getrandom = "0.3"
sha2 = "0.10"
uuid = { version = "1", features = ["v4"] }
time = "0.3"
serde = { version = "1", features = ["derive"] }
serde_json = "1"
thiserror = "2"
tracing = "0.1"
async-trait = "0.1"
sqlx = { version = "0.8", default-features = false, features = ["postgres", "runtime-tokio", "uuid", "time", "json", "migrate"] }
lettre = { version = "0.11", default-features = false, features = ["builder", "smtp-transport", "tokio1", "hostname"] }
