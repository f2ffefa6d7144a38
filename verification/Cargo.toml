[package]
name = "authcore"
version = "0.1.0"
edition = "2021"
publish = false

[dependencies]
jsonwebtoken = { version = "=11.1.0", features = ["rust_crypto"] }
serde = { version = "=1.0.229", features = ["derive"] }
serde_json = "=1.0.151"
axum = "=0.8.9"
tokio = { version = "=1.53.2", features = ["rt-multi-thread", "macros", "net"] }
sqlx = { version = "=0.9.0", default-features = false, features = ["runtime-tokio", "postgres", "derive"] }
reqwest = { version = "=0.13.5", default-features = false, features = ["json"] }
chrono = { version = "=0.4.45", default-features = false, features = ["clock"] }
dotenvy = "=0.15.7"
tower-http = { version = "=0.7.1", features = ["cors"] }
