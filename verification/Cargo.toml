[package]
name = "cards"
version = "0.1.0"
edition = "2021"
publish = false

[dependencies]
actix-web = "*"
chrono = "*"
serde = { version = "*", features = ["derive"] }
uuid = { version = "*", features = ["v4"] }
