[package]
name = "app_catalog"
version = "0.1.0"
edition = "2021"
publish = false

[dependencies]
bcrypt = "=0.19.3"
jsonwebtoken = { version = "=11.1.0", features = ["rust_crypto"] }
serde_json = "=1.0.151"
mime_guess = "=2.0.5"
uuid = { version = "=1.27.0", features = ["v4"] }
chrono = "=0.4.45"
actix-web = "*"
actix-multipart = "*"
futures-util = "*"
tokio = { version = "*", features = ["macros", "rt-multi-thread", "sync"] }
tokio-postgres = "*"
serde = { version = "*", features = ["derive"] }
dotenv = "*"
async-trait = "*"
