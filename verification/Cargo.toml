[package]
name = "pool_startup"
version = "0.1.0"
edition = "2021"
publish = false

[dependencies]
dotenvy = "*"
sqlx = { version = "*", default-features = false, features = ["sqlite", "runtime-tokio"] }
thiserror = "*"
tokio = { version = "*", features = ["rt-multi-thread", "macros"] }
tracing = "*"
tracing-subscriber = "*"
