[package]
name = "markdown_harvest"
version = "0.1.0"
edition = "2021"
publish = false

[dependencies]
html2md = "*"
rand = "*"
regex = "*"
reqwest = { version = "*", default-features = false, features = ["blocking", "cookies", "rustls-tls"] }
scraper = "*"
text-splitter = { version = "*", features = ["markdown"] }
tokio = { version = "*", features = ["rt-multi-thread", "macros"] }
futures = "*"
