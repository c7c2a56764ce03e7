[package]
name = "backend"
version = "0.1.0"
edition = "2021"
publish = false

[dependencies]
bcrypt = "=0.15.1"
getrandom = "=0.2.17"
jsonwebtoken = "=9.3.1"
serde_json = { version = "=1.0.154", features = ["raw_value"] }
serde = { version = "=1.0.229", features = ["derive"] }
chrono = { version = "=0.4.45", features = ["serde"] }
axum = { version = "=0.7.9", features = ["ws"] }
tokio = { version = "=1.54.1", features = ["full"] }
sqlx = { version = "=0.7.4", default-features = false, features = ["runtime-tokio", "mysql", "chrono", "macros"] }
redis = { version = "=0.25.5", features = ["tokio-comp"] }
tower-http = { version = "=0.5.2", features = ["cors"] }
futures = "=0.3.34"
async-trait = "=0.1.92"
dotenv = "=0.15.0"
