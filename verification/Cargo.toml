[package]
name = "filmapik"
version = "0.1.0"
edition = "2021"
publish = false

[dependencies]
scraper = "*"
actix-web = { version = "4", default-features = false, features = ["macros"] }
actix-cors = "*"
reqwest = { version = "*", default-features = false }
serde = { version = "1", features = ["derive"] }
serde_json = "1"
log = "0.4"
env_logger = "*"
dotenv = "*"
thiserror = "*"
