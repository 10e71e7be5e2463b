[package]
name = "phrack_read"
version = "0.1.0"
edition = "2021"
publish = false

[dependencies]
unicode-width = "=0.2.2"
scraper = "=0.29.0"
clap = { version = "=4.6.7", features = ["derive"] }
colored = "=3.1.1"
crossterm = { version = "=0.29.0", features = ["osc52"] }
reqwest = "=0.13.5"
tokio = { version = "=1.54.1", features = ["full"] }
