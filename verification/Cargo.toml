[package]
name = "wuwa_downloader"
version = "0.1.0"
edition = "2021"
publish = false

[dependencies]
colored = "2"
flate2 = "1"
indicatif = "0.17"
md-5 = "0.10"
reqwest = { version = "0.12", features = ["blocking"] }
serde_json = "1"
shellexpand = "3"
