[package]
name = "impulse_edge"
version = "0.1.0"
edition = "2021"
publish = false

[dependencies]
base64 = "0.22"
boring = "4"
bytes = "1"
hex = "0.4"
hmac = "0.12"
http = "1"
http-body-util = "0.1"
hyper = { version = "1", features = ["client", "http1", "http2"] }
hyper-rustls = { version = "0.27", default-features = false, features = ["http1", "http2", "ring", "tls12", "webpki-roots"] }
hyper-util = { version = "0.1", features = ["client", "client-legacy", "http1", "http2", "tokio"] }
libc = "0.2"
log = "0.4"
serde = { version = "1", features = ["derive"] }
serde_json = "1"
sha2 = "0.10"
subtle = "2"
tokio = { version = "1", features = ["rt", "rt-multi-thread", "sync", "time"] }
x509-parser = "0.16"
