[package]
name = "blobstore-s3-provider"
version = "0.1.0"
edition = "2021"
publish = false

[dependencies]
hyper = { version = "0.14", features = ["client", "http1", "http2", "tcp", "runtime"] }
hyper-proxy = "0.9"
hyper-tls = "0.5"
log = "0.4"
rusoto_core = "0.47"
rusoto_s3 = "0.47"
tokio = { version = "1", features = ["rt-multi-thread"] }
