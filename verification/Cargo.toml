[package]
name = "blog_api"
version = "0.1.0"
edition = "2021"
publish = false

[dependencies]
actix-web = { version = "4", default-features = false, features = ["macros"] }
deadpool-postgres = "*"
tokio-postgres = { version = "0.7", features = ["with-time-0_3"] }
serde = { version = "1", features = ["derive"] }
time = { version = "0.3", features = ["serde-human-readable"] }
dotenv = "*"
