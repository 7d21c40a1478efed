[package]
name = "facingtime_core"
version = "0.1.0"
edition = "2021"
publish = false

[dependencies]
tokio = { version = "1", features = ["rt-multi-thread", "sync", "net", "fs", "time", "macros"] }
axum = { version = "0.8" }
http = "1"
bytes = "1"
hyper-util = { version = "0.1", features = ["tokio", "server-auto", "service"] }
tower = { version = "0.5", features = ["util"] }
tower-http = { version = "0.6", features = ["add-extension"] }
rcgen = { version = "0.14", default-features = false, features = ["crypto", "pem", "ring"] }
rustls = { version = "0.23", default-features = false, features = ["ring", "std", "logging", "tls12"] }
rustls-pemfile = "2"
tokio-rustls = { version = "0.26", default-features = false, features = ["ring", "logging", "tls12"] }
mdns-sd = "*"
parking_lot = "0.12"
tracing = "0.1"
thiserror = "*"
