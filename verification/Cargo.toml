[package]
name = "food_planner"
version = "0.1.0"
edition = "2021"
publish = false

[dependencies]
base64 = "0.22"
chrono = "0.4"
serde = { version = "1", features = ["derive"] }
sqlx = { version = "0.8", default-features = false, features = ["sqlite", "runtime-tokio", "migrate", "macros"] }
tokio = { version = "1", features = ["sync", "macros", "rt-multi-thread"] }
axum = "0.8"
