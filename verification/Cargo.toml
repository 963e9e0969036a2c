[package]
name = "printedin3d"
version = "0.1.0"
edition = "2021"
publish = false

[dependencies]
argon2 = "0.5"
rand = "0.8"
chrono = "0.4"
time = "0.3"
serde = { version = "1", features = ["derive"] }
thiserror = "2"
axum = "0.8"
tokio = { version = "1", features = ["macros", "rt-multi-thread", "net"] }
sqlx = { version = "0.8", default-features = false, features = ["runtime-tokio", "sqlite", "chrono", "derive", "macros"] }
tower-cookies = "0.11"
tower-http = { version = "0.6", features = ["cors"] }
tracing-subscriber = "0.3"
