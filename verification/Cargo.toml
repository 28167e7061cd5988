[package]
name = "surrealdb_http"
version = "0.1.0"
edition = "2021"
publish = false

[dependencies]
base64 = "0.21"
serde = { version = "1", features = ["derive"] }
serde_json = "1"
simplehttp = { version = "*", default-features = false }
thiserror = "1"
