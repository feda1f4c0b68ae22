[package]
name = "imgur_enumerator"
version = "0.1.0"
edition = "2021"
publish = false

[dependencies]
rand = "*"
clap = "*"
futures = "*"
hyper = { version = "*", features = ["client", "http1"] }
hyper-tls = "*"
hyper-util = { version = "*", features = ["client-legacy", "http1", "tokio"] }
http-body-util = "*"
tokio = { version = "*", features = ["rt-multi-thread", "time", "sync"] }
