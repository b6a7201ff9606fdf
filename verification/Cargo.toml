[package]
name = "tokio_request"
version = "0.1.0"
edition = "2021"
publish = false

[dependencies]
url = "2"
percent-encoding = "2"
mime = "0.3"
mime_guess = "2"
rustc-serialize = "0.3"
futures = "0.1"
curl = "0.4"
tokio-core = "0.1"
tokio-curl = "0.1"
