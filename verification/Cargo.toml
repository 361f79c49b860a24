[package]
name = "shorty"
version = "0.1.0"
edition = "2021"
publish = false

[dependencies]
chrono = "=0.4.45"
mongodb = "=3.9.1"
bson = { version = "=2.15.0", features = ["chrono-0_4"] }
serde = { version = "*", features = ["derive"] }
tokio = { version = "*", features = ["macros", "rt-multi-thread"] }
