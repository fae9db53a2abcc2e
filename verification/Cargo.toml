[package]
name = "scalar_surreal"
version = "0.1.0"
edition = "2021"
publish = false

[dependencies]
serde = { version = "1", features = ["derive"] }
serde_json = "1"
surrealdb = { version = "3", default-features = false }
openidconnect = { version = "4", default-features = false }
tracing = "0.1"
chrono = "0.4"
