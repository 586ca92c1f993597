[package]
name = "zt_gateway"
version = "0.1.0"
edition = "2021"
publish = false

[dependencies]
base64 = "0.22"
bcrypt = "*"
clap = { version = "4", features = ["derive"] }
include_dir = "0.7"
lazy_static = "1"
mime_guess = "2"
reqwest = { version = "0.12", features = ["json"] }
salvo = { version = "*", features = ["logging"] }
serde = { version = "1", features = ["derive"] }
serde_json = "1"
sqlx = { version = "*", features = ["sqlite", "runtime-tokio"] }
tokio = { version = "1", features = ["full"] }
tracing-subscriber = "0.3"
uuid = { version = "1", features = ["v4"] }
