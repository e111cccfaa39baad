[package]
name = "watch_market"
version = "0.1.0"
edition = "2021"
publish = false

[dependencies]
bcrypt = "=0.15.1"
actix-web = "=4.18.1"
actix-cors = "=0.7.2"
actix-files = "=0.6.10"
actix-multipart = "=0.7.2"
chrono = { version = "=0.4.45", features = ["serde"] }
dotenv = "=0.15.0"
futures = "=0.3.34"
serde = { version = "=1.0.229", features = ["derive"] }
serde_json = "=1.0.154"
tokio = { version = "=1.54.1", features = ["full"] }
tokio-postgres = { version = "=0.7.18", features = ["with-chrono-0_4"] }
uuid = { version = "=1.29.0", features = ["v4"] }
image = "=0.24.9"
jsonwebtoken = "9"
