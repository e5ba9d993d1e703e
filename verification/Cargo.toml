[package]
name = "linkerd_proxy_http"
version = "0.1.0"
edition = "2021"
publish = false

[dependencies]
bytes = "1"
futures = { version = "0.3", default-features = false, features = ["std"] }
h2 = "0.4"
http = "1"
http-body = "1"
http-body-util = "0.1"
hyper = { version = "1", features = ["client", "http1", "http2"] }
hyper-util = { version = "0.1", default-features = false, features = ["tokio"] }
thiserror = "2"
tokio = { version = "1", features = ["rt", "rt-multi-thread", "sync", "time", "io-util"] }
tower = { version = "0.5", default-features = false, features = ["util"] }
tracing = "0.1"

[dev-dependencies]
tokio = { version = "1", features = ["test-util"] }
