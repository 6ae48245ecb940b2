[package]
name = "house_display"
version = "0.1.0"
edition = "2021"
publish = false

[dependencies]
chrono = "*"
url = "*"
scraper = "*"
serde_json = "*"
reqwest = { version = "*", default-features = false, features = ["blocking"] }
rocket = "*"
