[package]
name = "reddit_embed"
version = "0.1.0"
edition = "2021"
publish = false

[dependencies]
html-escape = "=0.2.15"
image = { version = "=0.24.9", default-features = false }
reqwest = "=0.11.27"
serde_json = "=1.0.154"
takecell = "=0.1.1"
teloxide = { version = "=0.7.3", features = ["macros", "auto-send"] }
tokio = { version = "=1.54.1", features = ["rt-multi-thread", "macros"] }
tokio-util = { version = "=0.6.10", features = ["codec"] }
url = "=2.5.8"
