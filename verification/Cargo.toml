[package]
name = "wallpaper_fetch"
version = "0.1.0"
edition = "2021"
publish = false

[dependencies]
rand = "0.8.8"
rand_chacha = "0.3.1"
chrono = "0.4.45"
scraper = "0.29.0"
reqwest = { version = "0.11.27", features = ["stream"] }
tokio = { version = "1", features = ["full"] }
futures = "0.3.34"
futures-util = "0.3.34"
