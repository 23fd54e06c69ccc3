[package]
name = "elkato_api"
version = "0.1.0"
edition = "2021"
publish = false

[dependencies]
url = "*"
scraper = "*"
chrono = "*"
chrono-tz = "*"
reqwest = { version = "*", default-features = false, features = ["blocking"] }
anyhow = "*"
