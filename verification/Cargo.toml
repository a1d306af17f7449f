[package]
name = "stocks"
version = "0.1.0"
edition = "2021"
publish = false

[dependencies]
chrono = "0.4"
gtk4 = "0.6"
libadwaita = "0.4"
tokio = { version = "1", features = ["rt-multi-thread"] }
