[package]
name = "social_gateway"
version = "0.1.0"
edition = "2021"
publish = false

[dependencies]
axum = "*"
base64 = "*"
futures = "*"
serde = { version = "*", features = ["derive"] }
serde_json = "*"
serde_with = "*"
tokio = { version = "*", features = ["macros", "rt-multi-thread", "net"] }
tower-http = { version = "*", features = ["cors"] }
typedb-driver = "*"
