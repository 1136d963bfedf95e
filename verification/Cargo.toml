[package]
name = "actix_todo"
version = "0.1.0"
edition = "2021"
publish = false

[dependencies]
actix-rt = "2"
actix-web = "4"
deadpool-postgres = "*"
dotenv = "*"
serde = { version = "1", features = ["derive"] }
serde_json = "1"
tokio-postgres = "*"
