[package]
name = "otc_sol"
version = "0.1.0"
edition = "2021"
publish = false

[dependencies]
bcrypt = "*"
solana-sdk = { version = "*", default-features = false }
actix-web = { version = "4", default-features = false, features = ["macros"] }
actix-service = "2"
actix-web-httpauth = "*"
futures-util = "0.3"
diesel = { version = "2", features = ["postgres", "r2d2", "chrono"] }
chrono = { version = "0.4", features = ["serde"] }
serde = { version = "1", features = ["derive"] }
serde_json = "1"
