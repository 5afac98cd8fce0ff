[package]
name = "users_backend"
version = "0.1.0"
edition = "2021"
publish = false

[dependencies]
rocket = { version = "0.5", features = ["json"] }
rocket_cors = "0.6"
tokio = { version = "1", features = ["rt"] }
tokio-postgres = "0.7"
