[package]
name = "vehicle_booking"
version = "0.1.0"
edition = "2021"
publish = false

[dependencies]
bson = { version = "2", features = ["chrono-0_4"] }
chrono = { version = "0.4", features = ["serde"] }
serde = { version = "1", features = ["derive"] }
serde_json = "1"
mongodb = "3"
actix-web = "4"
actix-cors = "0.7"
actix-web-grants = "4"
actix-web-lab = "*"
futures = "0.3"
tokio = { version = "1", features = ["sync", "macros", "rt-multi-thread"] }
dotenv = "0.15"
sentry = "*"
sentry-actix = "*"
