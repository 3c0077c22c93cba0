[package]
name = "tonic_transport"
version = "0.1.0"
edition = "2021"
publish = false

[dependencies]
async-stream = "0.3"
futures-core = "0.3"
futures-util = "0.3"
http = "0.2"
hyper = { version = "0.14", default-features = false, features = ["server", "http2", "tcp", "stream", "runtime"] }
tokio = { version = "1", default-features = false, features = ["net"] }
tower = { version = "0.4", default-features = false, features = ["util", "make"] }
tower-make = "0.3"
tower-service = "0.3"
