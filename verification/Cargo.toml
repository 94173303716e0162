[package]
name = "top_stories"
version = "0.1.0"
edition = "2021"
publish = false

[dependencies]
serde = "*"
serde_json = "*"
reqwest = "*"
tokio = { version = "*", features = ["full"] }
hacker-news = "*"
