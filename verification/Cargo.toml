[package]
name = "noodle"
version = "0.1.0"
edition = "2021"
publish = false

[dependencies]
serde_json = "*"
sha2 = "*"
chrono = "*"
serde = { version = "*", features = ["derive"] }
uuid = { version = "*", features = ["v4"] }
tokio = { version = "*", features = ["rt-multi-thread", "macros", "time"] }
reqwest = { version = "*", features = ["blocking", "json"] }
sqlx = { version = "*", features = ["runtime-tokio", "sqlite", "chrono"] }
qdrant-client = "*"
