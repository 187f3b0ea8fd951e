[package]
name = "quilt_domain"
version = "0.1.0"
edition = "2021"
publish = false

[dependencies]
chrono = "=0.4.45"
chrono-tz = "=0.10.4"
regex = "=1.13.1"
url = "=2.5.8"
serde = { version = "=1.0.229", features = ["derive"] }
thiserror = "=2.0.21"
uuid = { version = "1", features = ["v4"] }
