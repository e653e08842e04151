[package]
name = "probhub_backend"
version = "0.1.0"
edition = "2021"
publish = false

[dependencies]
actix-cors = "0.7"
actix-web = { version = "4", default-features = false, features = ["macros"] }
argon2 = "0.5"
chrono = { version = "0.4", default-features = false, features = ["now"] }
dotenv = "0.15"
env_logger = { version = "0.11", default-features = false }
futures-util = "0.3"
jsonwebtoken = { version = "9", default-features = false }
lettre = { version = "0.11", default-features = false, features = ["builder", "smtp-transport", "native-tls", "hostname"] }
rand = "0.8"
rand_core = { version = "0.6", features = ["getrandom"] }
serde = { version = "1", features = ["derive"] }
serde_json = "1"
sqlx = { version = "0.8", default-features = false, features = ["runtime-tokio", "postgres", "time"] }
time = "0.3"
