[package]
name = "scrapely"
version = "0.1.0"
edition = "2021"
publish = false

[dependencies]
scraper = "=0.29.0"
tokio = { version = "=1.54.1", features = ["full"] }
tokio-util = "=0.7.20"
tokio-stream = "=0.1.19"
futures-util = "=0.3.34"
async-trait = "=0.1.92"
thiserror = "=2.0.21"
regex = "1"
