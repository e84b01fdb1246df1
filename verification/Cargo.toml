[package]
name = "backend_lab"
version = "0.1.0"
edition = "2021"
publish = false

[dependencies]
anyhow = "=1.0.104"
axum = { version = "=0.7.9", features = ["ws"] }
bcrypt = "=0.19.3"
chrono = { version = "=0.4.45", features = ["serde"] }
clap = { version = "=4.6.7", features = ["derive"] }
deadpool-redis = { version = "=0.23.1", features = ["streams"] }
dotenv = "=0.15.0"
dotenvy = "=0.15.7"
jsonwebtoken = "=9.3.1"
maud = "=0.27.0"
pulldown-cmark = "=0.13.6"
reqwest = { version = "=0.12.28", default-features = false, features = ["json", "rustls-tls"] }
serde = { version = "=1.0.229", features = ["derive"] }
serde_json = { version = "=1.0.154", features = ["preserve_order"] }
sqlx = { version = "=0.8.6", default-features = false, features = ["runtime-tokio", "postgres", "uuid", "chrono", "derive"] }
tokio = { version = "=1.54.1", features = ["full"] }
uuid = { version = "=1.29.1", features = ["v4", "serde"] }
