[package]
name = "http_api_service"
version = "0.1.0"
edition = "2021"
publish = false

[dependencies]
bytes = "1"
formdata = "0.13"
futures = { version = "0.3", features = ["thread-pool"] }
http = "0.2"
hyper = { version = "0.14", features = ["client", "http1", "http2", "tcp", "stream", "runtime"] }
mime = "0.3"
multer = "2"
serde = { version = "1", features = ["derive"] }
serde_json = "1"
tokio = { version = "1", features = ["time", "rt", "rt-multi-thread", "macros"] }
ureq = { version = "2", default-features = false }
url = "2"
