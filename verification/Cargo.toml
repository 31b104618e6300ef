[package]
name = "calendar"
version = "0.1.0"
edition = "2021"
publish = false

[dependencies]
sha256 = { version = "=1.6.0", default-features = false }
chrono = { version = "=0.4.45", features = ["serde"] }
serde = { version = "=1.0.229", features = ["derive"] }
serde_json = "=1.0.154"
sqlx = { version = "=0.7.4", default-features = false, features = ["postgres", "runtime-tokio", "chrono"] }
actix-web = "=4.18.1"
actix-session = { version = "=0.8.0", features = ["cookie-session"] }
actix-cors = "=0.6.5"
tokio = { version = "=1.54.1", features = ["rt-multi-thread", "macros"] }
config = { version = "0.13", default-features = false, features = ["toml", "json"] }
futures-util = "0.3"
tracing = "0.1"
tracing-subscriber = "0.3"
tracing-actix-web = "0.7"
