[package]
name = "order_query"
version = "0.1.0"
edition = "2021"
publish = false

[dependencies]
ahash = "0.8"
serde = { version = "1", features = ["derive"] }
sqlx = { version = "*", default-features = false, features = ["derive"] }
strum = { version = "*", features = ["derive"] }
utoipa = "*"
