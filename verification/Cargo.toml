[package]
name = "ukis"
version = "0.1.0"
edition = "2021"
publish = false

[dependencies]
chrono = "0.4"
poem = "*"
poem-openapi = { version = "*", features = ["openapi-explorer", "chrono"] }
serde = { version = "1", features = ["derive"] }
serde_json = "1"
sqlx = { version = "*", default-features = false, features = ["postgres", "runtime-tokio", "chrono", "derive"] }
tokio = { version = "1", features = ["rt-multi-thread", "macros"] }
