[package]
name = "schema_info"
version = "0.1.0"
edition = "2021"
publish = false

[dependencies]
surrealdb = { version = "1", default-features = false }
serde = { version = "1", features = ["derive"] }
