[package]
name = "survey_backend"
version = "0.1.0"
edition = "2021"
publish = false

[dependencies]
actix-cors = "=0.6.5"
actix-web = "=4.18.1"
argon2 = { version = "=0.5.3", features = ["std"] }
chrono = "=0.4.45"
diesel = { version = "=1.4.8", features = ["postgres", "r2d2", "chrono", "serde_json"] }
diesel_json = "=0.1.1"
dotenv = "=0.15.0"
env_logger = "=0.9.3"
futures = "=0.3.34"
juniper = "=0.15.12"
juniper_actix = "=0.4.0"
juniper_codegen = "=0.15.9"
log = "=0.4.34"
serde = { version = "=1.0.229", features = ["derive"] }
serde_derive = "=1.0.229"
serde_json = "=1.0.154"
