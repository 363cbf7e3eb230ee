[package]
name = "bitcoin_service"
version = "0.1.0"
edition = "2021"
publish = false

[dependencies]
base64 = "*"
actix-web = { version = "4", default-features = false, features = ["macros"] }
reqwest = { version = "*", default-features = false, features = ["json"] }
serde = { version = "1", features = ["derive"] }
serde_json = "1"
utoipa = { version = "*", features = ["actix_extras"] }
utoipa-swagger-ui = { version = "*", features = ["actix-web", "vendored"] }
dotenv = "*"
env_logger = "*"
log = "*"
once_cell = "*"
