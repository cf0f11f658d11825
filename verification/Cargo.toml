[package]
name = "buster"
version = "0.1.0"
edition = "2021"
publish = false

[dependencies]
http = "1"
tokio = { version = "1", features = ["rt-multi-thread", "net", "io-util", "fs", "time", "macros", "sync"] }
hyper = { version = "1", features = ["client", "http1"] }
hyper-util = { version = "0.1", features = ["tokio"] }
http-body-util = "0.1"
async-channel = "2"
clap = { version = "4", features = ["derive"] }
cookie = "0.18"
