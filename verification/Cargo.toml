[package]
name = "webapi"
version = "0.1.0"
edition = "2021"
publish = false

[dependencies]
ulid = "=3.0.0"
chrono = "=0.4.45"
serde_json = "=1.0.151"
jsonwebtoken = { version = "=11.1.0", features = ["rust_crypto"] }
reqwest = { version = "=0.13.5", default-features = false, features = ["json"] }
axum = "=0.8.9"
axum-extra = { version = "=0.12.6", features = ["cookie"] }
tokio = { version = "=1.53.2", features = ["rt-multi-thread", "macros", "net"] }
tower-http = { version = "=0.7.1", features = ["cors", "timeout"] }
time = "=0.3.55"
serde = { version = "=1.0.229", features = ["derive"] }
sea-orm = { version = "=2.0.4", default-features = false }
