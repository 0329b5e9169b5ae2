[package]
name = "fetcher"
version = "0.1.0"
edition = "2021"
publish = false

[dependencies]
ammonia = "*"
chrono = "*"
mailparse = "*"
regex = "*"
rss = "*"
serde_json = "*"
url = "*"
