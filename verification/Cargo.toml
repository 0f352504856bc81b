[package]
name = "asocial"
version = "0.1.0"
edition = "2021"
publish = false

[dependencies]
dotenv = "0.15"
reqwest = { version = "0.11", default-features = false, features = ["json", "rustls-tls"] }
serde = { version = "1", features = ["derive"] }
serde_json = "1"
sqlx = { version = "0.7", default-features = false, features = ["runtime-tokio", "tls-rustls", "postgres", "uuid", "time", "json", "macros"] }
time = { version = "0.3", features = ["formatting"] }
tokio = { version = "1", features = ["full"] }
uuid = { version = "1", features = ["v4"] }
