[package]
name = "webpage"
version = "2.0.1"
edition = "2021"
publish = false

[dependencies]
curl = "0.4"
html5ever = "0.27"
markup5ever_rcdom = "0.3"
serde = { version = "1", features = ["derive"] }
serde_json = "1"
url = "2"
