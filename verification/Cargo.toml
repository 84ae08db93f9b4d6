[package]
name = "torii"
version = "0.1.0"
edition = "2021"
publish = false

[dependencies]
password-auth = "1"
rand = "0.8"
sqlx = { version = "0.8", default-features = false, features = ["runtime-tokio", "sqlite"] }
tokio = { version = "1", features = ["rt"] }
