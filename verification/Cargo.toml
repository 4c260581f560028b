[package]
name = "finance_cache"
version = "0.1.0"
edition = "2021"
publish = false

[dependencies]
chrono = "*"
fake = "*"
rand = "*"
sqlx = { version = "*", default-features = false, features = ["postgres", "runtime-tokio", "chrono", "uuid"] }
uuid = { version = "*", features = ["v4"] }
