[package]
name = "drawnotes"
version = "0.1.0"
edition = "2021"
publish = false

[dependencies]
serde = { version = "=1.0.229", features = ["derive"] }
surrealdb = { version = "=1.5.6", default-features = false, features = ["protocol-ws"] }
tokio = { version = "=1.54.1", features = ["macros", "rt-multi-thread"] }
