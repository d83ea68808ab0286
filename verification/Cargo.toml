[package]
name = "crawlmd"
version = "0.1.0"
edition = "2021"
publish = false

[dependencies]
clap = { version = "*", features = ["derive", "env"] }
clipboard = "*"
colored = "*"
firecrawl = "*"
indicatif = "*"
tiktoken-rs = "*"
tokio = { version = "*", features = ["macros", "rt-multi-thread"] }
url = "*"
