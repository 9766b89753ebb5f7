[package]
name = "oteltap"
version = "0.1.0"
edition = "2021"
publish = false

[dependencies]
http-body-util = "0.1"
hyper = { version = "1", features = ["http1", "http2", "server"] }
hyper-util = { version = "0.1", features = ["http1", "http2", "server", "server-auto", "tokio"] }
opentelemetry-proto = { version = "*", default-features = false, features = ["gen-tonic-messages", "logs", "metrics", "trace", "with-serde"] }
prost = "*"
reqwest = { version = "0.12", default-features = false, features = ["rustls-tls"] }
serde_json = "1"
tokio = { version = "1", features = ["net", "rt-multi-thread"] }
