[package]
name = "px_config"
version = "0.1.0"
edition = "2021"
publish = false

[dependencies]
secrecy = "*"
serde = { version = "*", features = ["derive"] }
serde_json = "*"
sqlx = { version = "*", default-features = false, features = ["postgres", "runtime-tokio"] }
opendal = { version = "*", default-features = false, features = ["services-s3"] }
tokio = { version = "*", features = ["rt-multi-thread", "macros"] }
tracing-log = "*"
