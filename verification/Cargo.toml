[package]
name = "user_service"
version = "0.1.0"
edition = "2021"
publish = false

[dependencies]
actix-web = { version = "3", default-features = false }
chrono = { version = "0.4", features = ["serde"] }
env_logger = "0.8"
log = "0.4"
r2d2_redis = "0.13"
serde = { version = "1", features = ["derive"] }
sqlx = { version = "0.5", default-features = false, features = ["mysql", "chrono", "runtime-actix-rustls"] }
structopt = "0.3"
