[package]
name = "itch_io"
version = "0.1.0"
edition = "2021"
publish = false

[dependencies]
scraper = "=0.27.0"
url = "=2.5.8"
reqwest = { version = "*", default-features = false, features = ["json", "cookies", "form"] }
tokio = { version = "*", features = ["rt-multi-thread"] }
serde = { version = "*", features = ["derive"] }
serde_json = "*"
anyhow = "*"
argh = "*"
itoa = "*"
thiserror = "*"
