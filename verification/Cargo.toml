[package]
name = "gmsv_reqwest"
version = "0.1.0"
edition = "2021"
publish = false

[dependencies]
crossbeam = "0.8"
url = "2"
http = "0.2"
reqwest = { version = "0.11", default-features = false, features = ["rustls-tls", "blocking"] }
tokio = { version = "1", features = ["rt", "net", "time"] }
bytes = "1"
libloading = "0.8"
