[package]
name = "time_entries"
version = "0.1.0"
edition = "2021"
publish = false

[dependencies]
actix-web = "*"
actix-rt = "*"
serde = { version = "*", features = ["derive"] }
serde_json = "*"
dotenv = "*"
listenfd = "*"
