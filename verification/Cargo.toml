[package]
name = "folio_backend"
version = "0.1.0"
edition = "2021"
publish = false

[dependencies]
argon2 = "0.5"
jsonwebtoken = "9"
serde_json = "1"
html-escape = "0.2"
serde = { version = "1", features = ["derive"] }
axum = "0.8"
tokio = { version = "1", features = ["rt-multi-thread", "macros", "net"] }
sqlx = { version = "0.8", default-features = false, features = ["postgres", "runtime-tokio", "uuid", "chrono"] }
chrono = "0.4"
uuid = { version = "1", features = ["v4"] }
dotenvy = "0.15"
reqwest = { version = "0.12", default-features = false, features = ["json"] }
tower-http = { version = "0.6", features = ["cors"] }
tower_governor = "0.4"
