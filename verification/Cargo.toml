[package]
name = "ephemeral_proxy"
version = "0.1.0"
edition = "2021"
publish = false

[dependencies]
constant_time_eq = "0.3"
uuid = { version = "1", features = ["v4", "serde"] }
actix-web = { version = "4", default-features = false, features = ["macros"] }
actix-rt = "2"
actix-service = "2"
awc = { version = "3", default-features = false }
tokio = { version = "1", features = ["sync", "time"] }
serde = { version = "1", features = ["derive"] }
dotenv = "0.15"
env_logger = "0.10"
log = "0.4"
