[package]
name = "mail_common"
version = "0.1.0"
edition = "2021"
publish = false

[dependencies]
regex = "=1.13.1"
serde = { version = "=1.0.229", features = ["derive"] }
serde_json = "=1.0.154"
file-format = "=0.29.0"
chrono = { version = "0.4", default-features = false, features = ["now"] }
