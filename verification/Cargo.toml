[package]
name = "otp_auth"
version = "0.1.0"
edition = "2021"
publish = false

[dependencies]
askama = "0.12"
askama_axum = "0.4"
axum = "0.7"
axum-extra = { version = "0.9", features = ["cookie"] }
axum_typed_multipart = "0.11"
dotenv = "0.15"
eyre = "0.6"
jsonwebtoken = "9"
lettre = { version = "0.11", default-features = false, features = ["builder", "smtp-transport", "tokio1", "tokio1-rustls-tls"] }
log = "0.4"
memory-serve = "0.6"
once_cell = "1"
rand = "0.8"
serde = { version = "1", features = ["derive"] }
sqlx = { version = "0.8", default-features = false, features = ["runtime-tokio", "postgres"] }
thiserror = "1"
tokio = { version = "1", features = ["full"] }
tower-http = { version = "0.5", features = ["trace"] }
tracing-subscriber = "0.3"
uuid = { version = "1", features = ["v4"] }
