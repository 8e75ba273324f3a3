[package]
name = "expense_tracker_backend"
version = "0.1.0"
edition = "2021"
publish = false

[dependencies]
argon2 = "=0.6.0"
jsonwebtoken = { version = "=11.1.0", features = ["rust_crypto"] }
serde_json = "=1.0.151"
slug = "=0.1.6"
uuid = { version = "=1.27.0", features = ["v4", "serde"] }
chrono = { version = "=0.4.45", features = ["serde"] }
axum = "*"
axum-extra = { version = "*", features = ["typed-header"] }
sqlx = { version = "*", default-features = false, features = ["postgres", "runtime-tokio", "chrono", "uuid", "rust_decimal", "derive"] }
tokio = { version = "*", features = ["full"] }
serde = { version = "*", features = ["derive"] }
rust_decimal = "*"
dotenvy = "*"
