[package]
name = "sdkwork_audio"
version = "0.1.0"
edition = "2021"
publish = false

[dependencies]
sha2 = "0.10"
hex = "0.4"
chrono = { version = "0.4", default-features = false, features = ["alloc", "clock", "serde"] }
serde = { version = "1", features = ["derive"] }
serde_json = "1"
tokio = { version = "1", features = ["rt"] }
async-trait = "0.1"
tracing = "0.1"
sqlx = { version = "0.8", default-features = false }
