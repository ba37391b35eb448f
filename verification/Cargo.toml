[package]
name = "butterfingers"
version = "0.1.0"
edition = "2021"
publish = false

[dependencies]
uuid = { version = "1", features = ["v4"] }
serde = { version = "1", features = ["derive"] }
serde_json = "1"
tokio = { version = "1", features = ["full"] }
sqlx = { version = "0.7", features = ["mysql", "runtime-tokio", "time"] }
libfprint-rs = "*"
futures = "0.3"
dotenvy = "0.15"
dirs = "5"
prettytable-rs = "0.10"
anyhow = "1"
