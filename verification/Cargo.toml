[package]
name = "http_client"
version = "0.1.0"
edition = "2021"
publish = false

[dependencies]
anyhow = "1.0"
futures = "0.3"
http = "1.1"
log = "0.4"
parking_lot = "0.12"
serde = "1.0"
serde_urlencoded = "0.7"
tiny_http = "0.12"
url = "2.5"
