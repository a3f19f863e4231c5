[package]
name = "db_gateway"
version = "0.1.0"
edition = "2021"
publish = false

[dependencies]
serde_json = "1"
serde = { version = "1", features = ["derive"] }
sqlx = { version = "0.8", default-features = false, features = ["runtime-tokio", "mysql", "postgres", "sqlite"] }
redis = { version = "0.27", features = ["tokio-comp"] }
mongodb = { version = "3", default-features = false, features = ["compat-3-0-0", "rustls-tls"] }
russh = "0.49"
russh-keys = "0.49"
async-trait = "0.1"
tokio = { version = "1", features = ["full"] }
