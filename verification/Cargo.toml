[package]
name = "schema_migrate"
version = "0.1.0"
edition = "2021"
publish = false

[dependencies]
mongodb = "3"
tokio = { version = "1", features = ["macros", "rt-multi-thread", "signal", "time"] }
futures-util = "0.3"
serde = { version = "1", features = ["derive"] }
dotenvy = "0.15"
tracing = "0.1"
tracing-subscriber = { version = "0.3", features = ["env-filter"] }
