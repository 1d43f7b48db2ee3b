[package]
name = "feed_fetch"
version = "0.1.0"
edition = "2021"
publish = false

[dependencies]
downloader = "0.2"
roxmltree = "*"
url = "2"
