[package]
name = "conga"
version = "0.1.0"
edition = "2021"
publish = false

[dependencies]
actix-cors = "=0.6.5"
actix-web = "=4.18.1"
chrono = "=0.4.45"
dotenv = "=0.15.0"
futures-util = "=0.3.34"
log = "=0.4.34"
serde = { version = "=1.0.229", features = ["derive"] }
serde_json = "=1.0.154"
simplelog = "=0.12.2"
time = { version = "=0.3.55", features = ["macros"] }
toml = "=0.5.11"
utoipa = { version = "=3.5.0", features = ["actix_extras"] }
utoipa-swagger-ui = { version = "=3.1.5", features = ["actix-web"] }
