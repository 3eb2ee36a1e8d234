[package]
name = "ankamantatra_bot"
version = "0.1.0"
edition = "2021"
publish = false

[dependencies]
rand = "=0.8.8"
reqwest = { version = "=0.12.28", features = ["json"] }
rusql-alchemy = { version = "=0.5.0", default-features = false, features = ["sqlite"] }
russenger = { version = "=0.3.1", features = ["sqlite"] }
serde = { version = "=1.0.229", features = ["derive"] }
serde_json = "=1.0.154"
sqlx = "=0.8.6"
tokio = { version = "=1.54.1", features = ["macros", "rt-multi-thread"] }
