[package]
name = "yenowa_errors"
version = "0.1.0"
edition = "2021"
publish = false

[dependencies]
serde_json = "=1.0.151"
url = "=2.5.8"
uuid = { version = "=1.27.0", features = ["v4"] }
time = "=0.3.55"
serde = { version = "=1.0.229", features = ["derive"] }
reqwest = { version = "=0.13.5", default-features = false, features = ["query"] }
actix-web = { version = "=4.15.0", default-features = false, features = ["macros"] }
clickhouse = { version = "=0.15.2", features = ["uuid", "time"] }
dotenvy = "=0.15.7"
env_logger = "=0.11.11"
log = "*"
