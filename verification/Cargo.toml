[package]
name = "yaha_native"
version = "0.1.0"
edition = "2021"
publish = false

[dependencies]
hyper = { version = "1", features = ["http1", "http2", "client"] }
hyper-util = { version = "0.1", features = ["client", "client-legacy", "http1", "http2", "tokio"] }
h2 = "0.4"
http-body-util = "0.1"
futures-channel = "0.3"
futures-util = "0.3"
rustls = { version = "0.23", default-features = false, features = ["ring", "logging", "std", "tls12"] }
rustls-pemfile = "2"
hyper-rustls = { version = "0.27", default-features = false, features = ["http1", "http2", "webpki-tokio", "ring", "logging", "tls12"] }
hyperlocal = { version = "0.9", default-features = false, features = ["client"] }
tokio = { version = "1", features = ["rt-multi-thread", "macros", "sync", "time"] }
tokio-util = "0.7"
