[package]
name = "feed_engine"
version = "0.1.0"
edition = "2021"
publish = false

[dependencies]
feed-rs = "*"
ureq = "2"
